//! What can go wrong, as structured values; the text is made on demand.

use vstd::prelude::*;

verus! {

/// The two count options.
#[derive(Clone, Copy, Debug, PartialEq, Eq, Structural)]
pub enum CountOption {
    Lines,
    Bytes,
}

impl CountOption {
    pub open spec fn spec_name(self) -> Seq<char> {
        match self {
            CountOption::Lines => "lines"@,
            CountOption::Bytes => "bytes"@,
        }
    }

    pub open spec fn spec_placeholder(self) -> Seq<char> {
        match self {
            CountOption::Lines => "LINES"@,
            CountOption::Bytes => "BYTES"@,
        }
    }

    /// The long option's name, without dashes.
    pub fn name(&self) -> (r: &'static str)
        ensures
            r@ == self.spec_name(),
    {
        match self {
            CountOption::Lines => "lines",
            CountOption::Bytes => "bytes",
        }
    }

    /// The placeholder that usage text shows for the option's value.
    pub fn placeholder(&self) -> (r: &'static str)
        ensures
            r@ == self.spec_placeholder(),
    {
        match self {
            CountOption::Lines => "LINES",
            CountOption::Bytes => "BYTES",
        }
    }

    /// `--<name> <PLACEHOLDER>`, as usage text shows the option.
    pub open spec fn spec_usage(self) -> Seq<char> {
        "--"@ + self.spec_name() + " <"@ + self.spec_placeholder() + ">"@
    }

    pub fn usage(&self) -> (r: String)
        ensures
            r@ == self.spec_usage(),
    {
        let r = String::from_str("--");
        let r = r.concat(self.name());
        let r = r.concat(" <");
        let r = r.concat(self.placeholder());
        r.concat(">")
    }
}

/// A failure to build a configuration, or to read an input.
#[derive(Debug)]
pub enum HeadError {
    /// Both options were given; they exclude each other.
    ConflictingOptions { first: CountOption, second: CountOption },
    /// A count that is not a positive number.
    InvalidValue { option: CountOption, value: String },
    /// An input that could not be opened or read.
    FileError { path: String, cause: String },
    /// The tokens do not fit the command's grammar, or asked for help or the version.
    CommandLine(clap::Error),
}

/// The content of a `HeadError`.
pub enum HeadErrorView {
    ConflictingOptions { first: CountOption, second: CountOption },
    InvalidValue { option: CountOption, value: Seq<char> },
    FileError { path: Seq<char>, cause: Seq<char> },
    CommandLine,
}

impl View for HeadError {
    type V = HeadErrorView;

    open spec fn view(&self) -> HeadErrorView {
        match self {
            HeadError::ConflictingOptions { first, second } => HeadErrorView::ConflictingOptions {
                first: *first,
                second: *second,
            },
            HeadError::InvalidValue { option, value } => HeadErrorView::InvalidValue {
                option: *option,
                value: value@,
            },
            HeadError::FileError { path, cause } => HeadErrorView::FileError {
                path: path@,
                cause: cause@,
            },
            HeadError::CommandLine(_) => HeadErrorView::CommandLine,
        }
    }
}

/// The text of an error; `None` for one whose text clap makes.
pub open spec fn message_of(e: HeadErrorView) -> Option<Seq<char>> {
    match e {
        HeadErrorView::ConflictingOptions { first, second } => Some(
            "the argument '"@ + first.spec_usage() + "' cannot be used with '"@
                + second.spec_usage() + "'"@,
        ),
        HeadErrorView::InvalidValue { option, value } => Some(
            "error: invalid value '"@ + value + "' for '"@ + option.spec_usage()
                + "': invalid digit found in string"@,
        ),
        HeadErrorView::FileError { path, cause } => Some(path + ": "@ + cause),
        HeadErrorView::CommandLine => None,
    }
}

/// Relies on the `message` field of `clap::Error`: the text clap made for the error.
#[verifier::external_body]
fn clap_message(e: &clap::Error) -> String {
    e.message.clone()
}

impl HeadError {
    /// The error as a line of text for the user.
    pub fn message(&self) -> (r: String)
        ensures
            message_of(self@) is Some ==> r@ == message_of(self@)->0,
    {
        match self {
            HeadError::ConflictingOptions { first, second } => {
                let r = String::from_str("the argument '");
                let r = r.concat(first.usage().as_str());
                let r = r.concat("' cannot be used with '");
                let r = r.concat(second.usage().as_str());
                r.concat("'")
            },
            HeadError::InvalidValue { option, value } => {
                let r = String::from_str("error: invalid value '");
                let r = r.concat(value.as_str());
                let r = r.concat("' for '");
                let r = r.concat(option.usage().as_str());
                r.concat("': invalid digit found in string")
            },
            HeadError::FileError { path, cause } => {
                let r = path.clone();
                let r = r.concat(": ");
                r.concat(cause.as_str())
            },
            HeadError::CommandLine(e) => clap_message(e),
        }
    }
}

} // verus!
