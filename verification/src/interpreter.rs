//! What a run of the interpreter gave back, and the report that the
//! playground shows for it.
//!
//! The interpreter itself is not part of this crate. A run hands over the
//! bytes that the program wrote to its two output streams and either the
//! value it returned, already rendered for inspection, or the failure it
//! ended with. [`Reporter`] turns those into one text.

use bstr::ByteSlice;
use vstd::prelude::*;
use vstd::slice::slice_to_vec;
use vstd::string::StringExecFns;
use vstd::utf8::decode_utf8;
use vstd::utf8::encode_utf8;
use vstd::utf8::encode_utf8_decode_utf8;
use vstd::utf8::valid_utf8;

verus! {

/// The number of bytes before the first line feed of `bytes`; all of them
/// where there is none.
pub open spec fn first_line_len(bytes: Seq<u8>) -> nat
    decreases bytes.len(),
{
    if bytes.len() == 0 || bytes[0] == 0x0a {
        0
    } else {
        1 + first_line_len(bytes.drop_first())
    }
}

/// A line without the carriage return that may end it.
pub open spec fn without_carriage_return(line: Seq<u8>) -> Seq<u8> {
    if line.len() > 0 && line.last() == 0x0d {
        line.drop_last()
    } else {
        line
    }
}

/// The lines of a byte string, without their terminators.
///
/// A line ends at a line feed; one carriage return right before the line
/// feed belongs to the terminator. What follows the last line feed is a line
/// of its own unless it is empty, and keeps a carriage return at its end.
pub open spec fn lines_of(bytes: Seq<u8>) -> Seq<Seq<u8>>
    decreases bytes.len(),
{
    let n = first_line_len(bytes);
    if bytes.len() == 0 {
        seq![]
    } else if n < bytes.len() {
        seq![without_carriage_return(bytes.take(n as int))] + lines_of(bytes.skip(n as int + 1))
    } else {
        seq![bytes]
    }
}

/// The lines of `lines` that are not valid UTF-8, in order.
pub open spec fn to_escape(lines: Seq<Seq<u8>>) -> Seq<Seq<u8>> {
    lines.filter(|line: Seq<u8>| !valid_utf8(line))
}

/// The text of `lines`, each followed by a line feed. A line that is valid
/// UTF-8 stands as it is. Each other line is replaced by the next entry of
/// `escaped`: the first such line by the first entry, and so on.
pub open spec fn rendered(lines: Seq<Seq<u8>>, escaped: Seq<Seq<char>>) -> Seq<char>
    decreases lines.len(),
{
    if lines.len() == 0 {
        seq![]
    } else {
        let before = lines.drop_last();
        let text = if valid_utf8(lines.last()) {
            decode_utf8(lines.last())
        } else {
            escaped[to_escape(before).len() as int]
        };
        rendered(before, escaped) + text + "\n"@
    }
}

/// The byte strings that slices hold.
pub open spec fn slice_views(slices: Seq<&[u8]>) -> Seq<Seq<u8>> {
    slices.map_values(|slice: &[u8]| slice@)
}

/// The byte strings that vectors hold.
pub open spec fn vec_views(vecs: Seq<Vec<u8>>) -> Seq<Seq<u8>> {
    vecs.map_values(|vec: Vec<u8>| vec@)
}

/// The texts that strings hold.
pub open spec fn string_views(strings: Seq<String>) -> Seq<Seq<char>> {
    strings.map_values(|string: String| string@)
}

/// Calls `bstr::ByteSlice::lines` and collects what it yields.
///
/// Taken on trust from `bstr`: the iterator yields the lines of `bytes` in
/// order, each without its terminator; it knows `\n` and `\r\n` as
/// terminators; and what follows the last terminator is yielded as a line
/// unless it is empty. [`lines_of`] says the same of a sequence of bytes.
#[verifier::external_body]
fn byte_lines<'a>(bytes: &'a [u8]) -> (lines: Vec<&'a [u8]>)
    ensures
        slice_views(lines@) == lines_of(bytes@),
{
    bytes.lines().collect()
}

/// Calls `core::str::from_utf8` and drops the error.
///
/// Taken on trust from the standard library: the call succeeds if and only
/// if `bytes` are valid UTF-8, and the string slice it then returns is made
/// of those very bytes.
#[verifier::external_body]
fn str_from_utf8<'a>(bytes: &'a [u8]) -> (text: Option<&'a str>)
    ensures
        text.is_some() <==> valid_utf8(bytes@),
        text matches Some(text) ==> encode_utf8(text@) == bytes@,
{
    core::str::from_utf8(bytes).ok()
}

/// The bytes written to the program's output streams during one run.
#[derive(Debug)]
pub struct Captured {
    /// What went to standard output.
    pub stdout: Vec<u8>,
    /// What went to standard error.
    pub stderr: Vec<u8>,
}

/// Why a run gave no value.
#[derive(Debug)]
pub enum EvalError {
    /// The program raised or could not be run. The text describes the
    /// failure for display.
    Raised(String),
    /// The playground cannot do what was asked of it.
    NotImplemented(String),
}

impl EvalError {
    /// The display text of the failure.
    pub open spec fn spec_message(self) -> Seq<char> {
        match self {
            EvalError::Raised(message) => message@,
            EvalError::NotImplemented(message) => message@,
        }
    }

    /// The display text of the failure.
    pub fn message(&self) -> (message: &str)
        ensures
            message@ == self.spec_message(),
    {
        match self {
            EvalError::Raised(message) => message.as_str(),
            EvalError::NotImplemented(message) => message.as_str(),
        }
    }

    /// The failure of a run that was handed an `OsStr`. This operation is
    /// not supported in the playground.
    pub fn eval_os_str() -> (error: EvalError)
        ensures
            error is NotImplemented,
            error.spec_message() == "Evaling &OsStr is not supported on the web"@,
    {
        EvalError::NotImplemented(String::from_str("Evaling &OsStr is not supported on the web"))
    }

    /// The failure of a run that was handed a file. This operation is not
    /// supported in the playground.
    pub fn eval_file() -> (error: EvalError)
        ensures
            error is NotImplemented,
            error.spec_message() == "Evaling sources from files is not supported on the web"@,
    {
        EvalError::NotImplemented(
            String::from_str("Evaling sources from files is not supported on the web"),
        )
    }
}

/// Convert a run of the interpreter into a displayable report.
#[derive(Debug)]
pub struct Reporter {
    /// The value that the program returned, as `inspect` renders it, or the
    /// failure that the run ended with.
    pub result: Result<Vec<u8>, EvalError>,
    /// The captured stdout and stderr of the interpreter.
    pub output: Captured,
}

/// Writes `lines` into `f`, each followed by a line feed. A line that is not
/// valid UTF-8 is written as the next unused entry of `escaped`; `used` says
/// how many are used already. Returns how many are used afterwards, or
/// nothing if `escaped` ran out.
fn write_lines(f: &mut String, lines: &Vec<&[u8]>, escaped: &Vec<String>, used: usize) -> (next:
    Option<usize>)
    requires
        used <= escaped@.len(),
    ensures
        next.is_some() <==> used + to_escape(slice_views(lines@)).len() <= escaped@.len(),
        next matches Some(next) ==> {
            &&& next == used + to_escape(slice_views(lines@)).len()
            &&& final(f)@ == old(f)@ + rendered(
                slice_views(lines@),
                string_views(escaped@).skip(used as int),
            )
        },
{
    let ghost all = slice_views(lines@);
    let ghost texts = string_views(escaped@).skip(used as int);
    let mut next = used;
    let mut i: usize = 0;
    while i < lines.len()
        invariant
            i <= lines.len(),
            all == slice_views(lines@),
            texts == string_views(escaped@).skip(used as int),
            used <= next <= escaped@.len(),
            next == used + to_escape(all.take(i as int)).len(),
            f@ == old(f)@ + rendered(all.take(i as int), texts),
        decreases lines.len() - i,
    {
        let line = lines[i];
        proof {
            reveal(Seq::filter);
            assert(all.take(i + 1).drop_last() =~= all.take(i as int));
            assert(all.take(i + 1).last() == line@);
            lemma_to_escape_prefix(all, i + 1);
        }
        match str_from_utf8(line) {
            Some(text) => {
                proof {
                    encode_utf8_decode_utf8(text@);
                }
                f.append(text);
            },
            None => {
                if next >= escaped.len() {
                    return None;
                }
                f.append(escaped[next].as_str());
                next += 1;
            },
        }
        f.append("\n");
        i += 1;
    }
    proof {
        assert(all.take(i as int) =~= all);
    }
    Some(next)
}

/// A prefix of `lines` holds no more lines to escape than `lines` does.
proof fn lemma_to_escape_prefix(lines: Seq<Seq<u8>>, i: int)
    requires
        0 <= i <= lines.len(),
    ensures
        to_escape(lines.take(i)).len() <= to_escape(lines).len(),
    decreases lines.len() - i,
{
    if i < lines.len() {
        reveal(Seq::filter);
        lemma_to_escape_prefix(lines, i + 1);
        assert(lines.take(i + 1).drop_last() =~= lines.take(i));
    } else {
        assert(lines.take(i) =~= lines);
    }
}

/// Appends to `found` a copy of each line of `lines` that is not valid
/// UTF-8.
fn collect_to_escape(found: &mut Vec<Vec<u8>>, lines: &Vec<&[u8]>)
    ensures
        vec_views(final(found)@) == vec_views(old(found)@) + to_escape(slice_views(lines@)),
{
    let ghost all = slice_views(lines@);
    let mut i: usize = 0;
    proof {
        reveal(Seq::filter);
        assert(vec_views(found@) =~= vec_views(old(found)@) + to_escape(all.take(0)));
    }
    while i < lines.len()
        invariant
            i <= lines.len(),
            all == slice_views(lines@),
            vec_views(found@) == vec_views(old(found)@) + to_escape(all.take(i as int)),
        decreases lines.len() - i,
    {
        let line = lines[i];
        proof {
            reveal(Seq::filter);
            assert(all.take(i + 1).drop_last() =~= all.take(i as int));
            assert(all.take(i + 1).last() == line@);
        }
        let ghost before = found@;
        if str_from_utf8(line).is_none() {
            found.push(slice_to_vec(line));
            assert(vec_views(found@) =~= vec_views(before).push(line@));
        }
        assert(vec_views(found@) =~= vec_views(old(found)@) + to_escape(all.take(i + 1)));
        i += 1;
    }
    proof {
        assert(all.take(i as int) =~= all);
    }
}

impl Reporter {
    /// The lines of standard output.
    pub open spec fn stdout_lines(self) -> Seq<Seq<u8>> {
        lines_of(self.output.stdout@)
    }

    /// The lines of standard error.
    pub open spec fn stderr_lines(self) -> Seq<Seq<u8>> {
        lines_of(self.output.stderr@)
    }

    /// The lines of the inspected value; none where the run failed.
    pub open spec fn value_lines(self) -> Seq<Seq<u8>> {
        match self.result {
            Ok(value) => lines_of(value@),
            Err(_) => seq![],
        }
    }

    /// The lines that cannot stand in the report as they are, in the order
    /// in which the report shows them.
    pub open spec fn spec_lines_to_escape(self) -> Seq<Seq<u8>> {
        to_escape(self.stdout_lines()) + to_escape(self.stderr_lines()) + to_escape(
            self.value_lines(),
        )
    }

    /// The report, given the escaped form of each line of
    /// `spec_lines_to_escape`:
    ///
    /// 1. the lines of standard output;
    /// 2. if standard error holds any bytes, the line `--- stderr:` and the
    ///    lines of standard error;
    /// 3. `=> ` and the lines of the inspected value, or else the display
    ///    text of the failure.
    pub open spec fn spec_report(self, escaped: Seq<Seq<char>>) -> Seq<char> {
        let for_stderr = escaped.skip(to_escape(self.stdout_lines()).len() as int);
        let for_value = for_stderr.skip(to_escape(self.stderr_lines()).len() as int);
        rendered(self.stdout_lines(), escaped) + (if self.output.stderr@.len() > 0 {
            "--- stderr:\n"@ + rendered(self.stderr_lines(), for_stderr)
        } else {
            seq![]
        }) + (match self.result {
            Ok(_) => "=> "@ + rendered(self.value_lines(), for_value),
            Err(error) => error.spec_message(),
        })
    }

    /// The lines that the report cannot show as they are, because they are
    /// not valid UTF-8, in the order in which the report shows them.
    ///
    /// [`Reporter::to_report`] takes the escaped form of each.
    pub fn lines_to_escape(&self) -> (lines: Vec<Vec<u8>>)
        ensures
            vec_views(lines@) == self.spec_lines_to_escape(),
    {
        let mut found: Vec<Vec<u8>> = Vec::new();
        assert(vec_views(found@) =~= Seq::<Seq<u8>>::empty());
        collect_to_escape(&mut found, &byte_lines(self.output.stdout.as_slice()));
        collect_to_escape(&mut found, &byte_lines(self.output.stderr.as_slice()));
        match &self.result {
            Ok(value) => {
                collect_to_escape(&mut found, &byte_lines(value.as_slice()));
            },
            Err(_) => {
                proof {
                    reveal(Seq::filter);
                }
            },
        }
        found
    }

    /// Coalesce stdout, stderr, and the inspected value into an output
    /// report suitable for displaying in the playground webapp.
    ///
    /// `escaped` holds the debug-escaped form of each line of
    /// [`Reporter::lines_to_escape`], in the same order. The report is made
    /// if and only if there is one entry for each such line.
    pub fn to_report(&self, escaped: &Vec<String>) -> (report: Option<String>)
        ensures
            report.is_some() <==> escaped@.len() == self.spec_lines_to_escape().len(),
            report matches Some(text) ==> text@ == self.spec_report(string_views(escaped@)),
    {
        let ghost texts = string_views(escaped@);
        let mut f = String::new();
        let stdout = byte_lines(self.output.stdout.as_slice());
        let stderr = byte_lines(self.output.stderr.as_slice());
        proof {
            reveal(Seq::filter);
            assert(texts.skip(0) =~= texts);
        }

        let mut used = match write_lines(&mut f, &stdout, escaped, 0) {
            Some(used) => used,
            None => {
                return None;
            },
        };
        let ghost for_stderr = texts.skip(used as int);

        if !self.output.stderr.is_empty() {
            f.append("--- stderr:\n");
            used = match write_lines(&mut f, &stderr, escaped, used) {
                Some(used) => used,
                None => {
                    return None;
                },
            };
        } else {
            assert(to_escape(self.stderr_lines()).len() == 0);
        }
        let ghost for_value = texts.skip(used as int);
        assert(for_value =~= for_stderr.skip(to_escape(self.stderr_lines()).len() as int));

        match &self.result {
            Ok(value) => {
                let value_lines = byte_lines(value.as_slice());
                f.append("=> ");
                used = match write_lines(&mut f, &value_lines, escaped, used) {
                    Some(used) => used,
                    None => {
                        return None;
                    },
                };
            },
            Err(exc) => {
                f.append(exc.message());
            },
        }

        if used != escaped.len() {
            return None;
        }
        assert(f@ =~= self.spec_report(texts));
        Some(f)
    }
}

} // verus!
