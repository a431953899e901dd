//! The parsed command: one of three families, each with its arguments.

use crate::request::{MappingError, MappingErrorView};
use crate::text::same_text;
use vstd::prelude::*;

verus! {

/// What to do within a family.
#[derive(Copy, Clone, PartialEq, Eq, Debug, Structural)]
pub enum Operation {
    Create,
    Read,
    Update,
    Delete,
}

/// The view of an optional text.
pub open spec fn text_view(text: Option<String>) -> Option<Seq<char>> {
    match text {
        Some(t) => Some(t@),
        None => None,
    }
}

/// The text that an unknown operation word is refused with.
pub open spec fn unknown_method(word: Seq<char>) -> Seq<char> {
    "Unknown method: "@ + word
}

impl Operation {
    /// The word that selects this operation on the command line.
    pub open spec fn name(self) -> Seq<char> {
        match self {
            Operation::Create => "create"@,
            Operation::Read => "read"@,
            Operation::Update => "update"@,
            Operation::Delete => "delete"@,
        }
    }

    /// The operation that `word` selects, if it selects one.
    pub open spec fn named(word: Seq<char>) -> Option<Operation> {
        if word == "create"@ {
            Some(Operation::Create)
        } else if word == "read"@ {
            Some(Operation::Read)
        } else if word == "update"@ {
            Some(Operation::Update)
        } else if word == "delete"@ {
            Some(Operation::Delete)
        } else {
            None
        }
    }

    /// The operation's word, as borrowed text.
    pub fn as_str(&self) -> (word: &'static str)
        ensures
            word@ == self.name(),
    {
        match self {
            Operation::Create => "create",
            Operation::Read => "read",
            Operation::Update => "update",
            Operation::Delete => "delete",
        }
    }

    /// The operation's word, as owned text.
    pub fn to_string(&self) -> (word: String)
        ensures
            word@ == self.name(),
    {
        self.as_str().to_owned()
    }
}

impl std::str::FromStr for Operation {
    type Err = String;

    /// Reads an operation word. Exactly the four words are accepted; any
    /// other text comes back inside the error message.
    fn from_str(s: &str) -> (r: Result<Operation, String>)
        ensures
            match Operation::named(s@) {
                Some(op) => r == Ok::<Operation, String>(op),
                None => r is Err && r->Err_0@ == unknown_method(s@),
            },
    {
        proof {
            reveal_strlit("create");
            reveal_strlit("read");
            reveal_strlit("update");
            reveal_strlit("delete");
        }
        if same_text(s, "create") {
            Ok(Operation::Create)
        } else if same_text(s, "read") {
            Ok(Operation::Read)
        } else if same_text(s, "update") {
            Ok(Operation::Update)
        } else if same_text(s, "delete") {
            Ok(Operation::Delete)
        } else {
            Err("Unknown method: ".to_owned().concat(s))
        }
    }
}

/// The arguments of one command. Which of them are required depends on the
/// family and the operation; nothing here is checked until the command is
/// mapped onto a request.
#[derive(Debug, Clone)]
pub struct AddArgs {
    pub operation: Operation,
    pub index_name: Option<String>,
    pub body: Option<String>,
    pub document_type: Option<String>,
    pub id: Option<String>,
    pub page: Option<u16>,
}

/// The command: a family, with the arguments given to it.
#[derive(Debug, Clone)]
pub enum Api {
    Info(AddArgs),
    Index(AddArgs),
    Document(AddArgs),
}

/// One invocation: where the settings are, and the command.
#[derive(Debug, Clone)]
pub struct Arguments {
    pub config: Option<String>,
    pub api: Api,
}

/// What an `AddArgs` holds, as plain values.
pub struct AddArgsView {
    pub operation: Operation,
    pub index_name: Option<Seq<char>>,
    pub body: Option<Seq<char>>,
    pub document_type: Option<Seq<char>>,
    pub id: Option<Seq<char>>,
    pub page: Option<u16>,
}

/// What an `Api` holds, as plain values.
pub enum ApiView {
    Info(AddArgsView),
    Index(AddArgsView),
    Document(AddArgsView),
}

/// What an `Arguments` holds, as plain values.
pub struct ArgumentsView {
    pub config: Option<Seq<char>>,
    pub api: ApiView,
}

impl View for AddArgs {
    type V = AddArgsView;

    open spec fn view(&self) -> AddArgsView {
        AddArgsView {
            operation: self.operation,
            index_name: text_view(self.index_name),
            body: text_view(self.body),
            document_type: text_view(self.document_type),
            id: text_view(self.id),
            page: self.page,
        }
    }
}

impl View for Api {
    type V = ApiView;

    open spec fn view(&self) -> ApiView {
        match self {
            Api::Info(a) => ApiView::Info(a@),
            Api::Index(a) => ApiView::Index(a@),
            Api::Document(a) => ApiView::Document(a@),
        }
    }
}

impl View for Arguments {
    type V = ArgumentsView;

    open spec fn view(&self) -> ArgumentsView {
        ArgumentsView { config: text_view(self.config), api: self.api@ }
    }
}

/// The words that select a family on the command line.
pub const INFO_FAMILY: &'static str = "info";

pub const INDEX_FAMILY: &'static str = "index";

pub const DOCUMENT_FAMILY: &'static str = "document";

/// A command as the command line gives it: the family and the operation are
/// still words, and the operation may have been left out.
#[derive(Debug, Clone)]
pub struct RawArguments {
    pub config: Option<String>,
    pub family: String,
    pub operation: Option<String>,
    pub index_name: Option<String>,
    pub body: Option<String>,
    pub document_type: Option<String>,
    pub id: Option<String>,
    pub page: Option<u16>,
}

/// What a `RawArguments` holds, as plain values.
pub struct RawArgumentsView {
    pub config: Option<Seq<char>>,
    pub family: Seq<char>,
    pub operation: Option<Seq<char>>,
    pub index_name: Option<Seq<char>>,
    pub body: Option<Seq<char>>,
    pub document_type: Option<Seq<char>>,
    pub id: Option<Seq<char>>,
    pub page: Option<u16>,
}

impl View for RawArguments {
    type V = RawArgumentsView;

    open spec fn view(&self) -> RawArgumentsView {
        RawArgumentsView {
            config: text_view(self.config),
            family: self.family@,
            operation: text_view(self.operation),
            index_name: text_view(self.index_name),
            body: text_view(self.body),
            document_type: text_view(self.document_type),
            id: text_view(self.id),
            page: self.page,
        }
    }
}

/// The operation that an optional word selects: reading when there is no
/// word, else what the word names, if it names an operation.
pub open spec fn selected_operation(word: Option<Seq<char>>) -> Option<Operation> {
    match word {
        None => Some(Operation::Read),
        Some(w) => Operation::named(w),
    }
}

/// The command of `family` with `args`, if `family` is one of the three
/// family words.
pub open spec fn command_of(family: Seq<char>, args: AddArgsView) -> Option<ApiView> {
    if family == INFO_FAMILY@ {
        Some(ApiView::Info(args))
    } else if family == INDEX_FAMILY@ {
        Some(ApiView::Index(args))
    } else if family == DOCUMENT_FAMILY@ {
        Some(ApiView::Document(args))
    } else {
        None
    }
}

/// The arguments that `raw` stands for.
///
/// The operation word must name an operation and the family word a family;
/// where either does not, the operation is unsupported for the family, and
/// the error names both words as given (an operation left out is named by
/// the word for reading). Every other field is taken over as it is.
pub open spec fn parsed(raw: RawArgumentsView) -> Result<ArgumentsView, MappingErrorView> {
    let word = match raw.operation {
        Some(w) => w,
        None => Operation::Read.name(),
    };
    match selected_operation(raw.operation) {
        None => Err(MappingErrorView::UnsupportedOperation(word, raw.family)),
        Some(operation) => {
            let args = AddArgsView {
                operation,
                index_name: raw.index_name,
                body: raw.body,
                document_type: raw.document_type,
                id: raw.id,
                page: raw.page,
            };
            match command_of(raw.family, args) {
                None => Err(MappingErrorView::UnsupportedOperation(word, raw.family)),
                Some(api) => Ok(ArgumentsView { config: raw.config, api }),
            }
        },
    }
}

/// The outcome of parsing, as plain values.
pub open spec fn parsed_view(outcome: Result<Arguments, MappingError>) -> Result<
    ArgumentsView,
    MappingErrorView,
> {
    match outcome {
        Ok(arguments) => Ok(arguments@),
        Err(error) => Err(error@),
    }
}

/// Turns the words of a command line into typed arguments.
pub fn parse_arguments(raw: RawArguments) -> (outcome: Result<Arguments, MappingError>)
    ensures
        parsed_view(outcome) == parsed(raw@),
{
    let RawArguments { config, family, operation, index_name, body, document_type, id, page } =
        raw;
    proof {
        reveal_strlit("info");
        reveal_strlit("index");
        reveal_strlit("document");
    }
    let (word, selected) = match operation {
        None => (Operation::Read.to_string(), Some(Operation::Read)),
        Some(word) => {
            let selected = match <Operation as std::str::FromStr>::from_str(word.as_str()) {
                Ok(operation) => Some(operation),
                Err(_) => None,
            };
            (word, selected)
        },
    };
    match selected {
        None => Err(MappingError::UnsupportedOperation(word, family)),
        Some(operation) => {
            let args = AddArgs { operation, index_name, body, document_type, id, page };
            if same_text(family.as_str(), INFO_FAMILY) {
                Ok(Arguments { config, api: Api::Info(args) })
            } else if same_text(family.as_str(), INDEX_FAMILY) {
                Ok(Arguments { config, api: Api::Index(args) })
            } else if same_text(family.as_str(), DOCUMENT_FAMILY) {
                Ok(Arguments { config, api: Api::Document(args) })
            } else {
                Err(MappingError::UnsupportedOperation(word, family))
            }
        },
    }
}

} // verus!
