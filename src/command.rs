//! Parsing of one chunk of client input into an SMTP command.
use vstd::prelude::*;

verus! {

/// What `char::is_alphanumeric` returns for a character.
pub uninterp spec fn alphanumeric(c: char) -> bool;

/// An ASCII letter or digit.
pub open spec fn ascii_alphanumeric(c: char) -> bool {
    ('a' <= c && c <= 'z') || ('A' <= c && c <= 'Z') || ('0' <= c && c <= '9')
}

/// Relies on `char::is_alphanumeric`: whether `c` is alphabetic or numeric,
/// which among ASCII characters holds of the letters and digits alone.
#[verifier::external_body]
fn is_alphanumeric(c: char) -> (r: bool)
    ensures
        r == alphanumeric(c),
        (c as u32) < 128 ==> (r <==> ascii_alphanumeric(c)),
{
    c.is_alphanumeric()
}

/// Whitespace between a verb and its argument.
pub open spec fn is_blank(c: char) -> bool {
    c == ' ' || c == '\t'
}

/// A character that may stand in a hostname: `.` or an alphanumeric one.
pub open spec fn is_host_char(c: char) -> bool {
    ||| c == '.'
    ||| ascii_alphanumeric(c)
    ||| ((c as u32) >= 128 && alphanumeric(c))
}

/// The input without the NUL characters that pad its end.
pub open spec fn trim_nul(s: Seq<char>) -> Seq<char>
    decreases s.len(),
{
    if s.len() > 0 && s.last() == '\0' {
        trim_nul(s.drop_last())
    } else {
        s
    }
}

/// The number of blank characters at the start of `s`.
pub open spec fn blank_prefix_len(s: Seq<char>) -> nat
    decreases s.len(),
{
    if s.len() > 0 && is_blank(s[0]) {
        1 + blank_prefix_len(s.skip(1))
    } else {
        0
    }
}

/// The verb `HELO`.
pub open spec fn helo_verb() -> Seq<char> {
    seq!['H', 'E', 'L', 'O']
}

/// The verb `QUIT`.
pub open spec fn quit_verb() -> Seq<char> {
    seq!['Q', 'U', 'I', 'T']
}

/// `QUIT` followed by CRLF.
pub open spec fn is_quit_line(line: Seq<char>) -> bool {
    line == quit_verb() + seq!['\r', '\n']
}

/// What stands between `HELO` and the final CRLF of a line.
pub open spec fn helo_args(line: Seq<char>) -> Seq<char> {
    line.subrange(4, line.len() - 2)
}

/// The hostname of a `HELO` line: its arguments after the leading blanks.
pub open spec fn helo_host(line: Seq<char>) -> Seq<char> {
    helo_args(line).skip(blank_prefix_len(helo_args(line)) as int)
}

/// `HELO`, one or more blanks, a run of hostname characters, and CRLF.
pub open spec fn is_helo_line(line: Seq<char>) -> bool {
    &&& line.len() >= 6
    &&& line.take(4) == helo_verb()
    &&& line[line.len() - 2] == '\r'
    &&& line[line.len() - 1] == '\n'
    &&& blank_prefix_len(helo_args(line)) >= 1
    &&& forall|i: int| 0 <= i < helo_host(line).len() ==> is_host_char(#[trigger] helo_host(line)[i])
}

/// The line begins with a verb this parser knows, as a whole word.
pub open spec fn names_known_verb(line: Seq<char>) -> bool {
    &&& line.len() >= 4
    &&& (line.take(4) == helo_verb() || line.take(4) == quit_verb())
    &&& (line.len() == 4 || is_blank(line[4]) || line[4] == '\r' || line[4] == '\n')
}

/// A command received from a client.
#[derive(Debug, PartialEq, Eq)]
pub enum Command {
    Helo(String),
    Quit,
}

/// Why a chunk of input is not a command.
#[derive(Debug, Clone, Copy, PartialEq, Eq, Structural)]
pub enum ParseFailure {
    /// The line does not begin with a known verb.
    UnrecognizedCommand,
    /// The verb is known, but what follows it is malformed.
    InvalidArguments,
}

/// A command as a mathematical value.
pub enum CommandView {
    Helo(Seq<char>),
    Quit,
}

impl View for Command {
    type V = CommandView;

    open spec fn view(&self) -> CommandView {
        match self {
            Command::Helo(host) => CommandView::Helo(host@),
            Command::Quit => CommandView::Quit,
        }
    }
}

/// A parse outcome with its command seen as a mathematical value.
pub open spec fn outcome_view(r: Result<Command, ParseFailure>) -> Result<CommandView, ParseFailure> {
    match r {
        Ok(c) => Ok(c@),
        Err(e) => Err(e),
    }
}

/// What parsing `input` gives.
pub open spec fn spec_parse(input: Seq<char>) -> Result<CommandView, ParseFailure> {
    let line = trim_nul(input);
    if is_quit_line(line) {
        Ok(CommandView::Quit)
    } else if is_helo_line(line) {
        Ok(CommandView::Helo(helo_host(line)))
    } else if names_known_verb(line) {
        Err(ParseFailure::InvalidArguments)
    } else {
        Err(ParseFailure::UnrecognizedCommand)
    }
}

proof fn lemma_trim_nul_step(s: Seq<char>, n: int)
    requires
        0 < n <= s.len(),
        s[n - 1] == '\0',
    ensures
        trim_nul(s.take(n)) == trim_nul(s.take(n - 1)),
{
    assert(s.take(n).drop_last() =~= s.take(n - 1));
}

fn chars_of(s: &str) -> (r: Vec<char>)
    ensures
        r@ == s@,
{
    let n = s.unicode_len();
    let mut r: Vec<char> = Vec::new();
    let mut i: usize = 0;
    while i < n
        invariant
            n == s@.len(),
            i <= n,
            r@ == s@.take(i as int),
        decreases n - i,
    {
        r.push(s.get_char(i));
        i += 1;
        assert(r@ =~= s@.take(i as int));
    }
    assert(r@ =~= s@);
    r
}

/// Parses one chunk of input: `HELO <blanks><hostname>` or `QUIT`, each
/// ended by CRLF, with NUL padding after it ignored.
pub fn parse(input: &str) -> (r: Result<Command, ParseFailure>)
    ensures
        outcome_view(r) == spec_parse(input@),
{
    let chars = chars_of(input);
    let mut end: usize = chars.len();
    assert(input@.take(end as int) =~= input@);
    while end > 0 && chars[end - 1] == '\0'
        invariant
            end <= chars@.len(),
            chars@ == input@,
            trim_nul(input@) == trim_nul(input@.take(end as int)),
        decreases end,
    {
        proof {
            lemma_trim_nul_step(input@, end as int);
        }
        end -= 1;
    }
    let ghost line = input@.take(end as int);
    assert(trim_nul(line) == line);
    assert(trim_nul(input@) == line);
    let helo = end >= 4 && chars[0] == 'H' && chars[1] == 'E' && chars[2] == 'L' && chars[3] == 'O';
    let quit = end >= 4 && chars[0] == 'Q' && chars[1] == 'U' && chars[2] == 'I' && chars[3] == 'T';
    assert(helo == (line.len() >= 4 && line.take(4) == helo_verb())) by {
        if line.len() >= 4 {
            assert(line.take(4) == helo_verb() <==> line.take(4) =~= helo_verb());
        }
    }
    assert(quit == (line.len() >= 4 && line.take(4) == quit_verb())) by {
        if line.len() >= 4 {
            assert(line.take(4) == quit_verb() <==> line.take(4) =~= quit_verb());
        }
    }
    assert(quit ==> !(line.take(4) == helo_verb()));
    if quit && end == 6 && chars[4] == '\r' && chars[5] == '\n' {
        assert(line =~= quit_verb() + seq!['\r', '\n']);
        return Ok(Command::Quit);
    }
    assert(!is_quit_line(line)) by {
        if is_quit_line(line) {
            assert(line.len() == 6);
            assert(line[4] == '\r' && line[5] == '\n');
            assert(line.take(4) =~= quit_verb());
        }
    }
    let terminated = end >= 6 && chars[end - 2] == '\r' && chars[end - 1] == '\n';
    if helo && terminated {
        let ghost args = helo_args(line);
        let stop: usize = end - 2;
        let mut i: usize = 4;
        assert(args.skip(0) =~= args);
        while i < stop && (chars[i] == ' ' || chars[i] == '\t')
            invariant
                4 <= i <= stop,
                stop == end - 2,
                end <= chars@.len(),
                chars@ == input@,
                line == input@.take(end as int),
                args == line.subrange(4, stop as int),
                blank_prefix_len(args) == (i - 4) + blank_prefix_len(args.skip(i - 4)),
            decreases stop - i,
        {
            assert(args.skip(i - 4).skip(1) =~= args.skip(i + 1 - 4));
            i += 1;
        }
        let ghost w = i - 4;
        assert(blank_prefix_len(args.skip(w)) == 0);
        assert(blank_prefix_len(args) == w);
        let mut j: usize = i;
        let mut host_ok = true;
        while j < stop
            invariant
                i <= j <= stop,
                stop == end - 2,
                end >= 6,
                end <= chars@.len(),
                chars@ == input@,
                line == input@.take(end as int),
                args == line.subrange(4, stop as int),
                helo_host(line) == args.skip(w),
                w == i - 4,
                host_ok <==> (forall|k: int| i <= k < j ==> is_host_char(#[trigger] chars@[k])),
            decreases stop - j,
        {
            let c = chars[j];
            if !(c == '.' || is_alphanumeric(c)) {
                host_ok = false;
            }
            j += 1;
        }
        assert(host_ok <==> (forall|k: int|
            0 <= k < helo_host(line).len() ==> is_host_char(#[trigger] helo_host(line)[k]))) by {
            assert forall|k: int| 0 <= k < helo_host(line).len() implies helo_host(line)[k] == chars@[k + i] by {}
            if !host_ok {
                let k = choose|k: int| i <= k < stop && !is_host_char(#[trigger] chars@[k]);
                assert(helo_host(line)[k - i] == chars@[k]);
            }
        }
        if i > 4 && host_ok {
            let host = String::from_str(input.substring_char(i, stop));
            assert(host@ =~= helo_host(line));
            return Ok(Command::Helo(host));
        }
    }
    assert(!is_helo_line(line));
    let known = (helo || quit) && (end == 4 || chars[4] == ' ' || chars[4] == '\t' || chars[4] == '\r'
        || chars[4] == '\n');
    if known {
        Err(ParseFailure::InvalidArguments)
    } else {
        Err(ParseFailure::UnrecognizedCommand)
    }
}

/// The line terminator of the protocol.
pub open spec fn line_end() -> Seq<char> {
    seq!['\r', '\n']
}

proof fn lemma_trim_padding(line: Seq<char>, padding: Seq<char>)
    requires
        line.len() > 0,
        line.last() != '\0',
        forall|i: int| 0 <= i < padding.len() ==> padding[i] == '\0',
    ensures
        trim_nul(line + padding) == line,
    decreases padding.len(),
{
    if padding.len() == 0 {
        assert(line + padding =~= line);
    } else {
        assert((line + padding).drop_last() =~= line + padding.drop_last());
        lemma_trim_padding(line, padding.drop_last());
    }
}

proof fn lemma_blank_prefix(blanks: Seq<char>, rest: Seq<char>)
    requires
        forall|i: int| 0 <= i < blanks.len() ==> is_blank(#[trigger] blanks[i]),
        rest.len() == 0 || !is_blank(rest[0]),
    ensures
        blank_prefix_len(blanks + rest) == blanks.len(),
    decreases blanks.len(),
{
    if blanks.len() == 0 {
        assert(blanks + rest =~= rest);
    } else {
        assert((blanks + rest).skip(1) =~= blanks.skip(1) + rest);
        lemma_blank_prefix(blanks.skip(1), rest);
    }
}

/// Every `HELO` line of the grammar, with any NUL padding after it, parses
/// to `Helo` with exactly its hostname.
pub proof fn lemma_helo_line_parses(blanks: Seq<char>, host: Seq<char>, padding: Seq<char>)
    requires
        blanks.len() >= 1,
        forall|i: int| 0 <= i < blanks.len() ==> is_blank(#[trigger] blanks[i]),
        forall|i: int| 0 <= i < host.len() ==> is_host_char(#[trigger] host[i]),
        forall|i: int| 0 <= i < padding.len() ==> padding[i] == '\0',
    ensures
        spec_parse(helo_verb() + blanks + host + line_end() + padding) == Ok::<CommandView, ParseFailure>(CommandView::Helo(host)),
{
    let line = helo_verb() + blanks + host + line_end();
    lemma_trim_padding(line, padding);
    assert(line.take(4) =~= helo_verb());
    assert(helo_args(line) =~= blanks + host);
    if host.len() > 0 {
        assert(is_host_char(host[0]));
    }
    lemma_blank_prefix(blanks, host);
    assert(helo_host(line) =~= host);
    assert(line[0] == 'H');
    assert(!is_quit_line(line)) by {
        if is_quit_line(line) {
            assert((quit_verb() + seq!['\r', '\n'])[0] == 'Q');
        }
    }
}

/// `QUIT` and CRLF, with any NUL padding after it, parses to `Quit`.
pub proof fn lemma_quit_line_parses(padding: Seq<char>)
    requires
        forall|i: int| 0 <= i < padding.len() ==> padding[i] == '\0',
    ensures
        spec_parse(quit_verb() + line_end() + padding) == Ok::<CommandView, ParseFailure>(CommandView::Quit),
{
    let line = quit_verb() + line_end();
    lemma_trim_padding(line, padding);
}

} // verus!
