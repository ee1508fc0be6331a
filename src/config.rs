//! The configuration of one run, and the rules that build it from the values
//! given on the command line.

use vstd::prelude::*;
use crate::error::{CountOption, HeadError, HeadErrorView};
use crate::number::{decimal, decimal_text, lemma_decimal_validates, parse_positive_int, positive_int_result};

verus! {

/// The number of lines printed when no count is given.
pub const DEFAULT_LINES: usize = 10;

/// The inputs, in order, and how much of each to print. The path `-` stands
/// for standard input.
#[derive(Debug, PartialEq, Eq)]
pub struct Config {
    files: Vec<String>,
    lines: usize,
    bytes: Option<usize>,
}

/// The content of a `Config`.
pub struct ConfigView {
    pub files: Seq<Seq<char>>,
    pub lines: nat,
    pub bytes: Option<nat>,
}

impl ConfigView {
    /// At least one input, and positive counts.
    pub open spec fn wf(self) -> bool {
        &&& self.files.len() > 0
        &&& 0 < self.lines <= usize::MAX
        &&& self.bytes matches Some(b) ==> 0 < b <= usize::MAX
    }
}

pub open spec fn texts_view(v: Seq<String>) -> Seq<Seq<char>> {
    v.map_values(|s: String| s@)
}

pub open spec fn count_view(c: Option<usize>) -> Option<nat> {
    match c {
        Some(n) => Some(n as nat),
        None => None,
    }
}

pub open spec fn text_view(t: Option<String>) -> Option<Seq<char>> {
    match t {
        Some(s) => Some(s@),
        None => None,
    }
}

pub open spec fn files_view(f: Option<Vec<String>>) -> Option<Seq<Seq<char>>> {
    match f {
        Some(v) => Some(texts_view(v@)),
        None => None,
    }
}

impl View for Config {
    type V = ConfigView;

    closed spec fn view(&self) -> ConfigView {
        ConfigView {
            files: texts_view(self.files@),
            lines: self.lines as nat,
            bytes: count_view(self.bytes),
        }
    }
}

impl Config {
    /// The inputs, in order.
    pub fn files(&self) -> (r: &Vec<String>)
        ensures
            texts_view(r@) == self@.files,
    {
        &self.files
    }

    /// How many lines to print of each input.
    pub fn lines(&self) -> (r: usize)
        ensures
            r as nat == self@.lines,
    {
        self.lines
    }

    /// How many bytes to print of each input, where bytes were asked for.
    pub fn bytes(&self) -> (r: Option<usize>)
        ensures
            count_view(r) == self@.bytes,
    {
        self.bytes
    }

    /// The option values that state this configuration again, as `resolve`
    /// takes them: the inputs, and the byte count or else the line count.
    pub fn option_values(&self) -> (r: (Option<Vec<String>>, Option<String>, Option<String>))
        ensures
            (files_view(r.0), text_view(r.1), text_view(r.2)) == args_of(self@),
    {
        let mut files: Vec<String> = Vec::new();
        let mut i: usize = 0;
        while i < self.files.len()
            invariant
                i <= self.files@.len(),
                files@ == self.files@.take(i as int),
            decreases self.files@.len() - i,
        {
            files.push(self.files[i].clone());
            i = i + 1;
            assert(files@ =~= self.files@.take(i as int));
        }
        assert(files@ =~= self.files@);
        match self.bytes {
            Some(b) => (Some(files), None, Some(decimal_text(b))),
            None => (Some(files), Some(decimal_text(self.lines)), None),
        }
    }
}

/// The inputs named, or standard input alone when none is.
pub open spec fn files_or_stdin(files: Option<Seq<Seq<char>>>) -> Seq<Seq<char>> {
    match files {
        Some(f) if f.len() > 0 => f,
        _ => seq!["-"@],
    }
}

/// The configuration that the given values make, or the error they give.
/// The options exclude each other, which is checked before either count.
pub open spec fn resolved(
    files: Option<Seq<Seq<char>>>,
    lines: Option<Seq<char>>,
    bytes: Option<Seq<char>>,
) -> Result<ConfigView, HeadErrorView> {
    if lines is Some && bytes is Some {
        Err(HeadErrorView::ConflictingOptions { first: CountOption::Lines, second: CountOption::Bytes })
    } else {
        let line_count: Result<nat, HeadErrorView> = match lines {
            None => Ok(DEFAULT_LINES as nat),
            Some(t) => match positive_int_result(t) {
                Ok(n) => Ok(n),
                Err(_) => Err(HeadErrorView::InvalidValue { option: CountOption::Lines, value: t }),
            },
        };
        let byte_count: Result<Option<nat>, HeadErrorView> = match bytes {
            None => Ok(None),
            Some(t) => match positive_int_result(t) {
                Ok(n) => Ok(Some(n)),
                Err(_) => Err(HeadErrorView::InvalidValue { option: CountOption::Bytes, value: t }),
            },
        };
        match (line_count, byte_count) {
            (Err(e), _) => Err(e),
            (Ok(_), Err(e)) => Err(e),
            (Ok(l), Ok(b)) => Ok(ConfigView { files: files_or_stdin(files), lines: l, bytes: b }),
        }
    }
}

/// Giving both options is refused, whatever their values and the inputs.
pub proof fn lemma_lines_and_bytes_conflict(
    files: Option<Seq<Seq<char>>>,
    lines: Seq<char>,
    bytes: Seq<char>,
)
    ensures
        resolved(files, Some(lines), Some(bytes)) == Err::<ConfigView, HeadErrorView>(
            HeadErrorView::ConflictingOptions { first: CountOption::Lines, second: CountOption::Bytes },
        ),
{
}

/// With no input named, the one input is standard input.
pub proof fn lemma_no_files_means_stdin(lines: Option<Seq<char>>, bytes: Option<Seq<char>>)
    ensures
        resolved(None, lines, bytes) matches Ok(c) ==> c.files == seq!["-"@],
        resolved(Some(Seq::empty()), lines, bytes) matches Ok(c) ==> c.files == seq!["-"@],
{
}

/// The option values that state a configuration again: its inputs, and its
/// byte count or else its line count, as decimal numerals.
pub open spec fn args_of(c: ConfigView) -> (
    Option<Seq<Seq<char>>>,
    Option<Seq<char>>,
    Option<Seq<char>>,
) {
    match c.bytes {
        Some(b) => (Some(c.files), None, Some(decimal(b))),
        None => (Some(c.files), Some(decimal(c.lines)), None),
    }
}

/// Resolving the values that re-state a resolved configuration gives that
/// same configuration.
pub proof fn lemma_round_trip(
    files: Option<Seq<Seq<char>>>,
    lines: Option<Seq<char>>,
    bytes: Option<Seq<char>>,
    c: ConfigView,
)
    requires
        resolved(files, lines, bytes) == Ok::<ConfigView, HeadErrorView>(c),
    ensures
        resolved(args_of(c).0, args_of(c).1, args_of(c).2) == Ok::<ConfigView, HeadErrorView>(c),
{
    match c.bytes {
        Some(b) => lemma_decimal_validates(b),
        None => lemma_decimal_validates(c.lines),
    }
}

/// The view of an outcome of building a configuration.
pub open spec fn outcome_view(r: Result<Config, HeadError>) -> Result<ConfigView, HeadErrorView> {
    match r {
        Ok(c) => Ok(c@),
        Err(e) => Err(e@),
    }
}

/// Builds the configuration from the option values that were given: the input
/// paths, the `--lines` value and the `--bytes` value.
pub fn resolve(files: Option<Vec<String>>, lines: Option<String>, bytes: Option<String>) -> (r:
    Result<Config, HeadError>)
    ensures
        outcome_view(r) == resolved(files_view(files), text_view(lines), text_view(bytes)),
        r matches Ok(c) ==> c@.wf(),
{
    if lines.is_some() && bytes.is_some() {
        return Err(HeadError::ConflictingOptions { first: CountOption::Lines, second: CountOption::Bytes });
    }
    let line_count: usize = match lines {
        None => DEFAULT_LINES,
        Some(t) => match parse_positive_int(t.as_str()) {
            Ok(n) => n,
            Err(_) => {
                return Err(HeadError::InvalidValue { option: CountOption::Lines, value: t });
            },
        },
    };
    let byte_count: Option<usize> = match bytes {
        None => None,
        Some(t) => match parse_positive_int(t.as_str()) {
            Ok(n) => Some(n),
            Err(_) => {
                return Err(HeadError::InvalidValue { option: CountOption::Bytes, value: t });
            },
        },
    };
    let files: Vec<String> = match files {
        Some(f) if f.len() > 0 => f,
        _ => {
            let mut v: Vec<String> = Vec::new();
            v.push(String::from_str("-"));
            assert(texts_view(v@) =~= seq!["-"@]);
            v
        },
    };
    Ok(Config { files, lines: line_count, bytes: byte_count })
}

} // verus!
