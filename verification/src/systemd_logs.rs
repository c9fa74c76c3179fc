//! A service's state as `systemctl show` reports it, the logs of its last
//! run as `journalctl` prints them, and the command lines that ask for them.
//!
//! The commands themselves are run by the caller, which hands back whether
//! they succeeded, their exit code and their standard output.

use vstd::prelude::*;

use crate::error::{NotifierError, SystemdTool};
use crate::text::{
    ends_with, ends_without_line_ending, law_lines_after_line_ending, law_lines_concat,
    law_lines_final_line_ending, lemma_lines_last_line, lemma_lines_leading_line, lemma_strip_cr_keeps_split, strip_cr,
    lemma_split_at_eq_parts, chars_of, parse_i64, parse_u64, push_char, push_str_chars, spec_lines, spec_parse_i64,
    spec_parse_u64, split_at_eq, split_at_first_eq, chars_eq_str, lines_of, string_of_range,
    IntErrorKind,
};

verus! {

// ---------------------------------------------------------------------------
// Trusted items
// ---------------------------------------------------------------------------

#[verifier::external_type_specification]
#[verifier::external_body]
pub struct ExShellWordsParseError(shell_words::ParseError);

#[verifier::external_type_specification]
#[verifier::external_body]
pub struct ExErrno(nix::errno::Errno);

#[verifier::external_type_specification]
#[verifier::external_body]
pub struct ExFromUtf8Error(std::string::FromUtf8Error);

/// What `shell_words::split` makes of a text: the words, or `None` where it
/// reports a missing closing quote.
pub uninterp spec fn shell_words_split(text: Seq<char>) -> Option<Seq<Seq<char>>>;

/// What compiling `pattern` with the `regex` crate and matching it against
/// `haystack` gives: `None` where the pattern does not compile.
pub uninterp spec fn regex_match_result(pattern: Seq<char>, haystack: Seq<char>) -> Option<bool>;

/// Calls `shell_words::split`. Trusted: its result is `shell_words_split`
/// of the text, the words taken as character sequences.
#[verifier::external_body]
fn split_shell_words(text: &str) -> (res: Result<Vec<String>, shell_words::ParseError>)
    ensures
        match res {
            Ok(words) => shell_words_split(text@) == Some(words@.map_values(|w: String| w@)),
            Err(_) => shell_words_split(text@) is None,
        },
{
    shell_words::split(text)
}

/// Calls `regex::Regex::new` on `pattern` and `regex::Regex::is_match` of
/// the compiled pattern on `haystack`. Trusted: the result is
/// `regex_match_result` of the two texts; for `UNIT_SUFFIX_PATTERN`, an
/// unanchored search whose `$` matches only at the end of the haystack (as
/// the crate documents), the pattern compiles and matches exactly the texts
/// that end in `'.'` and one of the listed unit types.
#[verifier::external_body]
fn regex_is_match(pattern: &str, haystack: &str) -> (res: Option<bool>)
    ensures
        res == regex_match_result(pattern@, haystack@),
        pattern@ == UNIT_SUFFIX_PATTERN@ ==> res == Some(has_unit_suffix(haystack@)),
{
    match regex::Regex::new(pattern) {
        Ok(re) => Some(re.is_match(haystack)),
        Err(_) => None,
    }
}

/// Calls `String::from_utf8`. Trusted: it succeeds exactly on valid UTF-8
/// and then holds the decoded characters (vstd's `valid_utf8` and
/// `decode_utf8`).
#[verifier::external_body]
fn string_from_utf8(bytes: Vec<u8>) -> (res: Result<String, std::string::FromUtf8Error>)
    ensures
        res is Ok <==> vstd::utf8::valid_utf8(bytes@),
        res matches Ok(s) ==> s@ == vstd::utf8::decode_utf8(bytes@),
{
    String::from_utf8(bytes)
}

/// Calls `nix::unistd::Uid::current` and returns the raw id. Nothing is
/// stated of it: it is the calling process's real user id.
#[verifier::external_body]
fn current_uid() -> (uid: u32) {
    nix::unistd::Uid::current().as_raw()
}

/// Calls `nix::unistd::Uid::is_root`. Trusted: as its documentation says,
/// it is true exactly for the id zero.
#[verifier::external_body]
fn uid_is_root(uid: u32) -> (res: bool)
    ensures
        res == (uid == 0),
{
    nix::unistd::Uid::from_raw(uid).is_root()
}

/// Calls `nix::unistd::User::from_uid` and keeps the user's name. Nothing
/// is stated of the result: it depends on the system's user database.
#[verifier::external_body]
fn user_name_for_uid(uid: u32) -> (res: Result<Option<String>, nix::errno::Errno>) {
    nix::unistd::User::from_uid(nix::unistd::Uid::from_raw(uid)).map(|u| u.map(|u| u.name))
}

// ---------------------------------------------------------------------------
// Service information
// ---------------------------------------------------------------------------

/// A service's state, as `systemctl show` reports it.
#[derive(Debug)]
pub struct ServiceInfo {
    pub name: String,
    pub description: String,
    pub triggered_by: String,
    pub fragment_path: String,
    pub invocation_id: String,
    pub start_timestamp: String,
    pub exit_timestamp: String,
    pub memory_peak: Option<u64>,
    pub cpu_usage_ns: Option<u64>,
    pub environment_str: String,
    pub environment_vals: Vec<(String, String)>,
    pub user: String,
    pub main_status: i64,
    pub result: String,
}

/// The mathematical value of a `ServiceInfo`.
pub struct ServiceInfoModel {
    pub name: Seq<char>,
    pub description: Seq<char>,
    pub triggered_by: Seq<char>,
    pub fragment_path: Seq<char>,
    pub invocation_id: Seq<char>,
    pub start_timestamp: Seq<char>,
    pub exit_timestamp: Seq<char>,
    pub memory_peak: Option<u64>,
    pub cpu_usage_ns: Option<u64>,
    pub environment_str: Seq<char>,
    pub environment_vals: Seq<(Seq<char>, Seq<char>)>,
    pub user: Seq<char>,
    pub main_status: i64,
    pub result: Seq<char>,
}

/// The characters of each string.
pub open spec fn string_views(v: Seq<String>) -> Seq<Seq<char>> {
    v.map_values(|s: String| s@)
}

/// The characters of each pair of strings.
pub open spec fn pair_views(v: Seq<(String, String)>) -> Seq<(Seq<char>, Seq<char>)> {
    v.map_values(|p: (String, String)| (p.0@, p.1@))
}

impl View for ServiceInfo {
    type V = ServiceInfoModel;

    open spec fn view(&self) -> ServiceInfoModel {
        ServiceInfoModel {
            name: self.name@,
            description: self.description@,
            triggered_by: self.triggered_by@,
            fragment_path: self.fragment_path@,
            invocation_id: self.invocation_id@,
            start_timestamp: self.start_timestamp@,
            exit_timestamp: self.exit_timestamp@,
            memory_peak: self.memory_peak,
            cpu_usage_ns: self.cpu_usage_ns,
            environment_str: self.environment_str@,
            environment_vals: pair_views(self.environment_vals@),
            user: self.user@,
            main_status: self.main_status,
            result: self.result@,
        }
    }
}

/// The state before any property was read: empty texts, no numbers,
/// status zero.
pub open spec fn empty_service_info() -> ServiceInfoModel {
    ServiceInfoModel {
        name: seq![],
        description: seq![],
        triggered_by: seq![],
        fragment_path: seq![],
        invocation_id: seq![],
        start_timestamp: seq![],
        exit_timestamp: seq![],
        memory_peak: None,
        cpu_usage_ns: None,
        environment_str: seq![],
        environment_vals: seq![],
        user: seq![],
        main_status: 0,
        result: seq![],
    }
}

impl Default for ServiceInfo {
    fn default() -> (res: Self)
        ensures
            res@ == empty_service_info(),
    {
        let res = ServiceInfo {
            name: String::new(),
            description: String::new(),
            triggered_by: String::new(),
            fragment_path: String::new(),
            invocation_id: String::new(),
            start_timestamp: String::new(),
            exit_timestamp: String::new(),
            memory_peak: None,
            cpu_usage_ns: None,
            environment_str: String::new(),
            environment_vals: Vec::new(),
            user: String::new(),
            main_status: 0,
            result: String::new(),
        };
        assert(pair_views(res.environment_vals@) =~= seq![]);
        res
    }
}

// ---------------------------------------------------------------------------
// Specification of the parse of `systemctl show`
// ---------------------------------------------------------------------------

/// The properties asked of `systemctl show`, in order.
pub open spec fn spec_journal_properties() -> Seq<Seq<char>> {
    seq![
        "Names"@,
        "Description"@,
        "TriggeredBy"@,
        "FragmentPath"@,
        "InvocationID"@,
        "ExecMainStartTimestamp"@,
        "ExecMainExitTimestamp"@,
        "MemoryPeak"@,
        "CPUUsageNSec"@,
        "Environment"@,
        "User"@,
        "ExecMainStatus"@,
        "Result"@,
    ]
}

/// The `KEY=VALUE` words of an environment assignment list, split at their
/// first `'='`, in order; words without `'='` are left out.
pub open spec fn spec_environment_pairs(words: Seq<Seq<char>>) -> Seq<(Seq<char>, Seq<char>)>
    decreases words.len(),
{
    if words.len() == 0 {
        seq![]
    } else {
        let init = spec_environment_pairs(words.drop_last());
        match split_at_eq(words.last()) {
            Some(pair) => init.push(pair),
            None => init,
        }
    }
}

/// The environment pairs of an `Environment=` value: its shell words, or
/// none where they do not parse.
pub open spec fn environment_of(value: Seq<char>) -> Seq<(Seq<char>, Seq<char>)> {
    match shell_words_split(value) {
        Some(words) => spec_environment_pairs(words),
        None => seq![],
    }
}

/// `text.parse::<u64>().ok()`.
pub open spec fn parse_u64_ok(text: Seq<char>) -> Option<u64> {
    match spec_parse_u64(text) {
        Ok(v) => Some(v),
        Err(_) => None,
    }
}

/// What reading one property does to the state. Unknown properties leave
/// it unchanged; `ExecMainStatus` fails when its value is not an `i64`.
pub open spec fn apply_property(m: ServiceInfoModel, key: Seq<char>, value: Seq<char>) -> Result<
    ServiceInfoModel,
    IntErrorKind,
> {
    if key == "Names"@ {
        Ok(ServiceInfoModel { name: value, ..m })
    } else if key == "Description"@ {
        Ok(ServiceInfoModel { description: value, ..m })
    } else if key == "TriggeredBy"@ {
        Ok(ServiceInfoModel { triggered_by: value, ..m })
    } else if key == "FragmentPath"@ {
        Ok(ServiceInfoModel { fragment_path: value, ..m })
    } else if key == "InvocationID"@ {
        Ok(ServiceInfoModel { invocation_id: value, ..m })
    } else if key == "ExecMainStartTimestamp"@ {
        Ok(ServiceInfoModel { start_timestamp: value, ..m })
    } else if key == "ExecMainExitTimestamp"@ {
        Ok(ServiceInfoModel { exit_timestamp: value, ..m })
    } else if key == "MemoryPeak"@ {
        Ok(ServiceInfoModel { memory_peak: parse_u64_ok(value), ..m })
    } else if key == "CPUUsageNSec"@ {
        Ok(ServiceInfoModel { cpu_usage_ns: parse_u64_ok(value), ..m })
    } else if key == "Environment"@ {
        Ok(
            ServiceInfoModel {
                environment_str: value,
                environment_vals: environment_of(value),
                ..m
            },
        )
    } else if key == "User"@ {
        Ok(ServiceInfoModel { user: value, ..m })
    } else if key == "ExecMainStatus"@ {
        match spec_parse_i64(value) {
            Ok(v) => Ok(ServiceInfoModel { main_status: v, ..m }),
            Err(e) => Err(e),
        }
    } else if key == "Result"@ {
        Ok(ServiceInfoModel { result: value, ..m })
    } else {
        Ok(m)
    }
}

/// What reading one line does: a line without `'='` changes nothing.
pub open spec fn apply_line(m: ServiceInfoModel, line: Seq<char>) -> Result<
    ServiceInfoModel,
    IntErrorKind,
> {
    match split_at_eq(line) {
        Some((key, value)) => apply_property(m, key, value),
        None => Ok(m),
    }
}

/// Reads `lines` in order; the first failure ends the read.
pub open spec fn apply_lines(m: ServiceInfoModel, lines: Seq<Seq<char>>) -> Result<
    ServiceInfoModel,
    IntErrorKind,
>
    decreases lines.len(),
{
    if lines.len() == 0 {
        Ok(m)
    } else {
        match apply_line(m, lines[0]) {
            Ok(next) => apply_lines(next, lines.drop_first()),
            Err(e) => Err(e),
        }
    }
}

/// The state that the output of `systemctl show` describes.
pub open spec fn spec_parse_service_info(output: Seq<char>) -> Result<
    ServiceInfoModel,
    IntErrorKind,
> {
    apply_lines(empty_service_info(), spec_lines(output))
}

/// The user after the backfill: an empty user becomes `'*'` followed by
/// the looked-up name, where the lookup succeeded.
pub open spec fn backfilled_user(user: Seq<char>, looked_up: Option<Seq<char>>) -> Seq<char> {
    if user.len() == 0 {
        match looked_up {
            Some(name) => seq!['*'] + name,
            None => user,
        }
    } else {
        user
    }
}

// ---------------------------------------------------------------------------
// Laws
// ---------------------------------------------------------------------------

/// Reading lines in two runs is reading them in one.
proof fn lemma_apply_lines_concat(m: ServiceInfoModel, l1: Seq<Seq<char>>, l2: Seq<Seq<char>>)
    ensures
        apply_lines(m, l1 + l2) == (match apply_lines(m, l1) {
            Ok(next) => apply_lines(next, l2),
            Err(e) => Err(e),
        }),
    decreases l1.len(),
{
    if l1.len() == 0 {
        assert(l1 + l2 =~= l2);
    } else {
        assert((l1 + l2).drop_first() =~= l1.drop_first() + l2);
        assert((l1 + l2)[0] == l1[0]);
        if let Ok(next) = apply_line(m, l1[0]) {
            lemma_apply_lines_concat(next, l1.drop_first(), l2);
        }
    }
}

/// The output of `systemctl show` can be read in two parts: reading the
/// whole is reading the first part and then the lines of the second, where
/// the first part ends without a line ending and the two are joined by one.
pub proof fn law_parse_in_parts(first: Seq<char>, rest: Seq<char>)
    requires
        ends_without_line_ending(first),
    ensures
        spec_parse_service_info(first + seq!['\n'] + rest) == (match spec_parse_service_info(
            first,
        ) {
            Ok(m) => apply_lines(m, spec_lines(rest)),
            Err(e) => Err(e),
        }),
{
    law_lines_concat(first, rest);
    lemma_apply_lines_concat(empty_service_info(), spec_lines(first), spec_lines(rest));
}

/// A final line ending does not change what the output of `systemctl show`
/// reads as.
pub proof fn law_parse_final_line_ending(output: Seq<char>)
    requires
        ends_without_line_ending(output),
    ensures
        spec_parse_service_info(output + seq!['\n']) == spec_parse_service_info(output),
        spec_parse_service_info(output + seq!['\r', '\n']) == spec_parse_service_info(output),
{
    law_lines_final_line_ending(output);
}

/// A line that reading leaves without effect: it has no `'='`, or its key
/// is none of the requested properties.
pub open spec fn is_ignored_line(line: Seq<char>) -> bool {
    match split_at_eq(line) {
        Some((key, _)) => !spec_journal_properties().contains(key),
        None => true,
    }
}

/// Reading an ignored line leaves the state as it was.
proof fn lemma_ignored_line(m: ServiceInfoModel, line: Seq<char>)
    requires
        is_ignored_line(line),
    ensures
        apply_line(m, line) == Ok::<ServiceInfoModel, IntErrorKind>(m),
{
    if let Some((key, _)) = split_at_eq(line) {
        let props = spec_journal_properties();
        assert(props[0] == "Names"@);
        assert(props[1] == "Description"@);
        assert(props[2] == "TriggeredBy"@);
        assert(props[3] == "FragmentPath"@);
        assert(props[4] == "InvocationID"@);
        assert(props[5] == "ExecMainStartTimestamp"@);
        assert(props[6] == "ExecMainExitTimestamp"@);
        assert(props[7] == "MemoryPeak"@);
        assert(props[8] == "CPUUsageNSec"@);
        assert(props[9] == "Environment"@);
        assert(props[10] == "User"@);
        assert(props[11] == "ExecMainStatus"@);
        assert(props[12] == "Result"@);
    }
}

/// Lines that have no `'='`, or whose key is none of the requested
/// properties, do not change what the output reads as, wherever they stand.
pub proof fn law_ignored_line(
    m: ServiceInfoModel,
    before: Seq<Seq<char>>,
    line: Seq<char>,
    after: Seq<Seq<char>>,
)
    requires
        is_ignored_line(line),
    ensures
        apply_lines(m, before + seq![line] + after) == apply_lines(m, before + after),
{
    assert(before + seq![line] + after =~= before + (seq![line] + after));
    lemma_apply_lines_concat(m, before, seq![line] + after);
    lemma_apply_lines_concat(m, before, after);
    if let Ok(next) = apply_lines(m, before) {
        lemma_ignored_line(next, line);
        assert((seq![line] + after).drop_first() =~= after);
        assert((seq![line] + after)[0] == line);
    }
}

/// An ignored line (blank, ending in `'\r'`, without `'='`, or with a key
/// that is none of the requested properties) inserted with its `'\n'` at
/// the start of any line of the output of `systemctl show` does not change
/// what the output reads as.
pub proof fn law_parse_ignores_inserted_line(before: Seq<char>, line: Seq<char>, after: Seq<char>)
    requires
        before.len() == 0 || before.last() == '\n',
        forall|i: int| 0 <= i < line.len() ==> line[i] != '\n',
        is_ignored_line(line),
    ensures
        spec_parse_service_info(before + line + seq!['\n'] + after) == spec_parse_service_info(
            before + after,
        ),
{
    let t = line + seq!['\n'] + after;
    assert(before + line + seq!['\n'] + after =~= before + t);
    law_lines_after_line_ending(before, t);
    law_lines_after_line_ending(before, after);
    lemma_lines_leading_line(line, after);
    lemma_strip_cr_keeps_split(line);
    let read = strip_cr(line);
    assert(is_ignored_line(read));
    law_ignored_line(empty_service_info(), spec_lines(before), read, spec_lines(after));
    assert(spec_lines(before) + spec_lines(t) =~= spec_lines(before) + seq![read] + spec_lines(
        after,
    ));
}

/// An ignored line appended as the last line of the output of
/// `systemctl show` does not change what the output reads as: after an
/// output that is empty or ends with `'\n'`, as it is; after one that ends
/// without a line ending, behind a `'\n'`.
pub proof fn law_parse_ignores_appended_line(output: Seq<char>, line: Seq<char>)
    requires
        forall|i: int| 0 <= i < line.len() ==> line[i] != '\n',
        is_ignored_line(line),
    ensures
        output.len() == 0 || output.last() == '\n' ==> spec_parse_service_info(output + line)
            == spec_parse_service_info(output),
        ends_without_line_ending(output) ==> spec_parse_service_info(output + seq!['\n'] + line)
            == spec_parse_service_info(output),
{
    lemma_lines_last_line(line);
    let tail = spec_lines(line);
    law_ignored_line(empty_service_info(), spec_lines(output), line, Seq::<Seq<char>>::empty());
    assert(spec_lines(output) + Seq::<Seq<char>>::empty() =~= spec_lines(output));
    if line.len() == 0 {
        assert(spec_lines(output) + tail =~= spec_lines(output));
    } else {
        assert(spec_lines(output) + tail =~= spec_lines(output) + seq![line] + Seq::<
            Seq<char>,
        >::empty());
    }
    if output.len() == 0 || output.last() == '\n' {
        law_lines_after_line_ending(output, line);
    }
    if ends_without_line_ending(output) {
        law_lines_concat(output, line);
    }
}

/// Every environment pair comes from one of the words: the word is the
/// key, `'='` and the value, and the key holds no `'='`.
pub proof fn law_environment_pairs_from_words(words: Seq<Seq<char>>)
    ensures
        forall|i: int|
            #![trigger spec_environment_pairs(words)[i]]
            0 <= i < spec_environment_pairs(words).len() ==> {
                let pair = spec_environment_pairs(words)[i];
                &&& exists|j: int|
                    0 <= j < words.len() && #[trigger] words[j] == pair.0 + seq!['='] + pair.1
                &&& forall|k: int| 0 <= k < pair.0.len() ==> pair.0[k] != '='
            },
    decreases words.len(),
{
    if words.len() > 0 {
        let init = words.drop_last();
        law_environment_pairs_from_words(init);
        lemma_split_at_eq_parts(words.last());
        let pairs = spec_environment_pairs(words);
        assert forall|i: int|
            #![trigger spec_environment_pairs(words)[i]]
            0 <= i < pairs.len() implies {
                let pair = spec_environment_pairs(words)[i];
                &&& exists|j: int|
                    0 <= j < words.len() && #[trigger] words[j] == pair.0 + seq!['='] + pair.1
                &&& forall|k: int| 0 <= k < pair.0.len() ==> pair.0[k] != '='
            } by {
            if i < spec_environment_pairs(init).len() {
                let pair = spec_environment_pairs(init)[i];
                assert(pairs[i] == pair);
                let j = choose|j: int|
                    0 <= j < init.len() && #[trigger] init[j] == pair.0 + seq!['='] + pair.1;
                assert(words[j] == init[j]);
            } else {
                assert(words[words.len() - 1] == words.last());
            }
        }
    }
}

// ---------------------------------------------------------------------------
// Executable functions
// ---------------------------------------------------------------------------

/// Appends the text `s` to a list of arguments.
pub(crate) fn push_arg(args: &mut Vec<String>, s: &str)
    ensures
        string_views(final(args)@) == string_views(old(args)@).push(s@),
{
    let ghost before = args@;
    args.push(s.to_owned());
    assert(string_views(args@) =~= string_views(before).push(s@));
}

/// The properties asked of `systemctl show`, in order.
pub fn journal_properties() -> (res: Vec<String>)
    ensures
        string_views(res@) == spec_journal_properties(),
{
    let mut res: Vec<String> = Vec::new();
    push_arg(&mut res, "Names");
    push_arg(&mut res, "Description");
    push_arg(&mut res, "TriggeredBy");
    push_arg(&mut res, "FragmentPath");
    push_arg(&mut res, "InvocationID");
    push_arg(&mut res, "ExecMainStartTimestamp");
    push_arg(&mut res, "ExecMainExitTimestamp");
    push_arg(&mut res, "MemoryPeak");
    push_arg(&mut res, "CPUUsageNSec");
    push_arg(&mut res, "Environment");
    push_arg(&mut res, "User");
    push_arg(&mut res, "ExecMainStatus");
    push_arg(&mut res, "Result");
    assert(string_views(res@) =~= spec_journal_properties());
    res
}

/// The `KEY=VALUE` words of `words`, split at their first `'='`, in order;
/// words without `'='` are left out.
pub fn environment_pairs(words: &Vec<String>) -> (res: Vec<(String, String)>)
    ensures
        pair_views(res@) == spec_environment_pairs(string_views(words@)),
{
    let mut res: Vec<(String, String)> = Vec::new();
    let mut i: usize = 0;
    while i < words.len()
        invariant
            i <= words@.len(),
            pair_views(res@) == spec_environment_pairs(string_views(words@).take(i as int)),
        decreases words@.len() - i,
    {
        let word = chars_of(words[i].as_str());
        let ghost prefix = string_views(words@).take(i + 1);
        assert(prefix.drop_last() =~= string_views(words@).take(i as int));
        assert(prefix.last() == word@);
        match split_at_first_eq(&word) {
            Some((key, value)) => {
                let k = string_of_range(&key, 0, key.len());
                let v = string_of_range(&value, 0, value.len());
                assert(k@ =~= key@);
                assert(v@ =~= value@);
                let ghost before = res@;
                res.push((k, v));
                assert(pair_views(res@) =~= pair_views(before).push((key@, value@)));
            },
            None => {},
        }
        i += 1;
    }
    assert(string_views(words@).take(words@.len() as int) =~= string_views(words@));
    res
}

/// The text of `cs`.
pub(crate) fn string_of(cs: &Vec<char>) -> (res: String)
    ensures
        res@ == cs@,
{
    let s = string_of_range(cs, 0, cs.len());
    assert(s@ =~= cs@);
    s
}

/// `text.parse::<u64>().ok()`.
fn parse_u64_opt(cs: &Vec<char>) -> (res: Option<u64>)
    ensures
        res == parse_u64_ok(cs@),
{
    match parse_u64(cs) {
        Ok(v) => Some(v),
        Err(_) => None,
    }
}

/// The shell words of `text`, or none where they do not parse.
pub fn split_words_or_none(text: &String) -> (res: Vec<String>)
    ensures
        spec_environment_pairs(string_views(res@)) == environment_of(text@),
{
    let words = match split_shell_words(text.as_str()) {
        Ok(words) => words,
        Err(_) => Vec::new(),
    };
    proof {
        if shell_words_split(text@) is None {
            assert(string_views(words@) =~= seq![]);
        }
    }
    words
}

/// The text of a command's output: `None` where it is not UTF-8.
pub fn decode_output(stdout: Vec<u8>) -> (res: Option<String>)
    ensures
        res is Some <==> vstd::utf8::valid_utf8(stdout@),
        res matches Some(s) ==> s@ == vstd::utf8::decode_utf8(stdout@),
{
    match string_from_utf8(stdout) {
        Ok(text) => Some(text),
        Err(_) => None,
    }
}

/// Reads the property `key` with the value `value` into `info`.
pub fn set_property(info: &mut ServiceInfo, key: &Vec<char>, value: &Vec<char>) -> (res: Result<
    (),
    IntErrorKind,
>)
    ensures
        match res {
            Ok(()) => apply_property(old(info)@, key@, value@) == Ok::<
                ServiceInfoModel,
                IntErrorKind,
            >(final(info)@),
            Err(e) => apply_property(old(info)@, key@, value@) == Err::<
                ServiceInfoModel,
                IntErrorKind,
            >(e),
        },
{
    if chars_eq_str(key, "Names") {
        info.name = string_of(value);
    } else if chars_eq_str(key, "Description") {
        info.description = string_of(value);
    } else if chars_eq_str(key, "TriggeredBy") {
        info.triggered_by = string_of(value);
    } else if chars_eq_str(key, "FragmentPath") {
        info.fragment_path = string_of(value);
    } else if chars_eq_str(key, "InvocationID") {
        info.invocation_id = string_of(value);
    } else if chars_eq_str(key, "ExecMainStartTimestamp") {
        info.start_timestamp = string_of(value);
    } else if chars_eq_str(key, "ExecMainExitTimestamp") {
        info.exit_timestamp = string_of(value);
    } else if chars_eq_str(key, "MemoryPeak") {
        info.memory_peak = parse_u64_opt(value);
    } else if chars_eq_str(key, "CPUUsageNSec") {
        info.cpu_usage_ns = parse_u64_opt(value);
    } else if chars_eq_str(key, "Environment") {
        let text = string_of(value);
        let words = split_words_or_none(&text);
        info.environment_vals = environment_pairs(&words);
        info.environment_str = text;
    } else if chars_eq_str(key, "User") {
        info.user = string_of(value);
    } else if chars_eq_str(key, "ExecMainStatus") {
        match parse_i64(value) {
            Ok(v) => {
                info.main_status = v;
            },
            Err(e) => {
                return Err(e);
            },
        }
    } else if chars_eq_str(key, "Result") {
        info.result = string_of(value);
    }
    Ok(())
}

/// Reads one line of `systemctl show` output into `info`.
pub fn apply_output_line(info: &mut ServiceInfo, line: &Vec<char>) -> (res: Result<
    (),
    IntErrorKind,
>)
    ensures
        match res {
            Ok(()) => apply_line(old(info)@, line@) == Ok::<ServiceInfoModel, IntErrorKind>(
                final(info)@,
            ),
            Err(e) => apply_line(old(info)@, line@) == Err::<ServiceInfoModel, IntErrorKind>(e),
        },
{
    match split_at_first_eq(line) {
        Some((key, value)) => set_property(info, &key, &value),
        None => Ok(()),
    }
}

/// Reads the output of `systemctl show` (`KEY=VALUE` lines) into a
/// `ServiceInfo`; fails only where `ExecMainStatus` is not an `i64`.
pub fn parse_service_info(output: &str) -> (res: Result<ServiceInfo, IntErrorKind>)
    ensures
        match res {
            Ok(info) => spec_parse_service_info(output@) == Ok::<
                ServiceInfoModel,
                IntErrorKind,
            >(info@),
            Err(e) => spec_parse_service_info(output@) == Err::<ServiceInfoModel, IntErrorKind>(
                e,
            ),
        },
{
    let cs = chars_of(output);
    let ls = lines_of(&cs);
    let ghost all = ls@.map_values(|l: Vec<char>| l@);
    let mut info = ServiceInfo::default();
    let mut k: usize = 0;
    assert(all.skip(0) =~= all);
    while k < ls.len()
        invariant
            k <= ls@.len(),
            all == ls@.map_values(|l: Vec<char>| l@),
            spec_parse_service_info(output@) == apply_lines(info@, all.skip(k as int)),
        decreases ls@.len() - k,
    {
        assert(all.skip(k as int).drop_first() =~= all.skip(k + 1));
        assert(all.skip(k as int)[0] == ls@[k as int]@);
        match apply_output_line(&mut info, &ls[k]) {
            Ok(()) => {},
            Err(e) => {
                return Err(e);
            },
        }
        k += 1;
    }
    assert(all.skip(k as int) =~= Seq::<Seq<char>>::empty());
    Ok(info)
}

/// `["--user"]` unless the process runs as root: `systemctl` and
/// `journalctl` then address the user's own service manager.
pub open spec fn spec_user_args(is_root: bool) -> Seq<Seq<char>> {
    if is_root {
        seq![]
    } else {
        seq!["--user"@]
    }
}

/// The arguments that select the service manager: none for root,
/// `["--user"]` for anyone else.
pub fn user_args_for(is_root: bool) -> (res: Vec<String>)
    ensures
        string_views(res@) == spec_user_args(is_root),
{
    let mut res: Vec<String> = Vec::new();
    if !is_root {
        push_arg(&mut res, "--user");
    }
    assert(string_views(res@) =~= spec_user_args(is_root));
    res
}

/// Without root there is exactly the one argument `--user`; for root there
/// is none.
pub proof fn law_user_args(is_root: bool)
    ensures
        is_root ==> spec_user_args(is_root).len() == 0,
        !is_root ==> spec_user_args(is_root) == seq!["--user"@],
{
}

/// The arguments that select the service manager of the user with id
/// `uid`: none for root (id zero), `["--user"]` for anyone else.
pub fn user_args_for_uid(uid: u32) -> (res: Vec<String>)
    ensures
        string_views(res@) == spec_user_args(uid == 0),
{
    user_args_for(uid_is_root(uid))
}

/// The arguments that select the service manager of the calling process's
/// user: `["--user"]` unless it runs as root. Which of the two lists comes
/// back depends on the process's user id, which is not stated.
pub fn user_args() -> (res: Vec<String>)
    ensures
        string_views(res@) == spec_user_args(true) || string_views(res@) == spec_user_args(false),
{
    let uid = current_uid();
    user_args_for_uid(uid)
}

/// The user name for a user lookup's result: the lookup's failure and a
/// missing user entry are errors.
pub fn user_name_from_lookup(lookup: Result<Option<String>, nix::errno::Errno>) -> (res: Result<
    String,
    NotifierError,
>)
    ensures
        match lookup {
            Ok(Some(name)) => res == Ok::<String, NotifierError>(name),
            Ok(None) => res == Err::<String, NotifierError>(NotifierError::NoUserFound),
            Err(_) => res == Err::<String, NotifierError>(NotifierError::UserLookupFailed),
        },
{
    match lookup {
        Ok(Some(name)) => Ok(name),
        Ok(None) => Err(NotifierError::NoUserFound),
        Err(_) => Err(NotifierError::UserLookupFailed),
    }
}

/// The name of the calling process's user.
pub fn get_user_name() -> (res: Result<String, NotifierError>)
    ensures
        res is Err ==> res == Err::<String, NotifierError>(NotifierError::NoUserFound) || res
            == Err::<String, NotifierError>(NotifierError::UserLookupFailed),
{
    let uid = current_uid();
    user_name_from_lookup(user_name_for_uid(uid))
}

/// Fills an empty user with `'*'` and the looked-up name, where the lookup
/// succeeded; `systemctl` leaves `User=` empty for user units.
pub fn backfill_user(info: &mut ServiceInfo, looked_up: Result<String, NotifierError>)
    ensures
        final(info)@ == (ServiceInfoModel {
            user: backfilled_user(
                old(info)@.user,
                match looked_up {
                    Ok(name) => Some(name@),
                    Err(_) => None,
                },
            ),
            ..old(info)@
        }),
{
    if info.user.as_str().is_empty() {
        match looked_up {
            Ok(name) => {
                let mut user = String::new();
                push_char(&mut user, '*');
                push_str_chars(&mut user, name.as_str());
                assert(user@ =~= seq!['*'] + name@);
                info.user = user;
            },
            Err(_) => {},
        }
    }
}

/// The state read from `systemctl show` with the user backfill applied for
/// the lookup's result `looked_up`: a user that was read is kept and no
/// failure is reported; an empty user becomes `'*'` followed by the
/// looked-up name, or stays empty with the lookup's failure reported.
/// Nothing but the user changes.
pub fn with_user_backfill(info: ServiceInfo, looked_up: Result<String, NotifierError>) -> (res: (
    ServiceInfo,
    Option<NotifierError>,
))
    ensures
        info@.user.len() > 0 ==> res.0@ == info@ && res.1 is None,
        info@.user.len() == 0 ==> match looked_up {
            Ok(name) => res.0@ == (ServiceInfoModel { user: seq!['*'] + name@, ..info@ }) && res.1
                is None,
            Err(e) => res.0@ == info@ && res.1 == Some(e),
        },
{
    let mut info = info;
    if info.user.as_str().is_empty() {
        match looked_up {
            Ok(name) => {
                let ghost n = name@;
                backfill_user(&mut info, Ok(name));
                assert(info@.user == seq!['*'] + n);
                (info, None)
            },
            Err(e) => (info, Some(e)),
        }
    } else {
        (info, None)
    }
}

// ---------------------------------------------------------------------------
// Command lines and command results
// ---------------------------------------------------------------------------

/// `-p PROPERTY` for each property, in order.
pub open spec fn property_options(props: Seq<Seq<char>>) -> Seq<Seq<char>>
    decreases props.len(),
{
    if props.len() == 0 {
        seq![]
    } else {
        property_options(props.drop_last()) + seq!["-p"@, props.last()]
    }
}

/// The arguments of `systemctl` that show the properties `props` of a
/// service.
pub open spec fn spec_show_args_for(
    user: Seq<Seq<char>>,
    props: Seq<Seq<char>>,
    service_name: Seq<char>,
) -> Seq<Seq<char>> {
    user + seq!["show"@, "--no-pager"@] + property_options(props) + seq![service_name]
}

/// The arguments of `systemctl` that show the service's properties.
pub open spec fn spec_show_args(user: Seq<Seq<char>>, service_name: Seq<char>) -> Seq<Seq<char>> {
    spec_show_args_for(user, spec_journal_properties(), service_name)
}

/// The arguments of `journalctl` that print the messages of one run.
pub open spec fn spec_journal_args(user: Seq<Seq<char>>, invocation_id: Seq<char>) -> Seq<
    Seq<char>,
> {
    user + seq!["--no-pager"@, "-o"@, "cat"@, "_SYSTEMD_INVOCATION_ID="@ + invocation_id]
}

/// The arguments of `systemctl` that ask whether a unit file exists.
pub open spec fn spec_list_unit_files_args(user: Seq<Seq<char>>, unit_file: Seq<char>) -> Seq<
    Seq<char>,
> {
    user + seq!["list-unit-files"@, "-q"@, unit_file]
}

/// The unit name that `systemctl list-unit-files` is asked for: with
/// `".service"` appended unless it already ends in a unit type's suffix.
pub open spec fn spec_unit_file_name(unit_name: Seq<char>, has_unit_suffix: bool) -> Seq<char> {
    if has_unit_suffix {
        unit_name
    } else {
        unit_name + ".service"@
    }
}

/// The unit types
/// (<https://www.freedesktop.org/software/systemd/man/latest/systemd.unit.html#Description>).
pub open spec fn unit_types() -> Seq<Seq<char>> {
    seq![
        "service"@,
        "socket"@,
        "device"@,
        "mount"@,
        "automount"@,
        "swap"@,
        "target"@,
        "path"@,
        "timer"@,
        "slice"@,
        "scope"@,
    ]
}

/// Whether a unit name ends in `'.'` and a unit type.
pub open spec fn has_unit_suffix(unit_name: Seq<char>) -> bool {
    exists|i: int| 0 <= i < unit_types().len() && ends_with(unit_name, seq!['.'] + #[trigger] unit_types()[i])
}

/// The arguments that ask whether a unit file exists are the user
/// arguments, whatever they are, followed by `list-unit-files -q` and the
/// unit file's name, which always comes last.
pub proof fn law_list_unit_files_args(user: Seq<Seq<char>>, unit_file: Seq<char>)
    ensures
        spec_list_unit_files_args(Seq::<Seq<char>>::empty(), unit_file) == seq![
            "list-unit-files"@,
            "-q"@,
            unit_file,
        ],
        spec_list_unit_files_args(user, unit_file) == user + spec_list_unit_files_args(
            Seq::<Seq<char>>::empty(),
            unit_file,
        ),
        spec_list_unit_files_args(user, unit_file).len() == user.len() + 3,
        spec_list_unit_files_args(user, unit_file).last() == unit_file,
{
    assert(Seq::<Seq<char>>::empty() + seq!["list-unit-files"@, "-q"@, unit_file] =~= seq![
        "list-unit-files"@,
        "-q"@,
        unit_file,
    ]);
}

/// The arguments that print a run's messages are the user arguments,
/// whatever they are, followed by `--no-pager -o cat` and the match on the
/// invocation id, which always comes last.
pub proof fn law_journal_args(user: Seq<Seq<char>>, invocation_id: Seq<char>)
    ensures
        spec_journal_args(Seq::<Seq<char>>::empty(), invocation_id) == seq![
            "--no-pager"@,
            "-o"@,
            "cat"@,
            "_SYSTEMD_INVOCATION_ID="@ + invocation_id,
        ],
        spec_journal_args(user, invocation_id) == user + spec_journal_args(
            Seq::<Seq<char>>::empty(),
            invocation_id,
        ),
        spec_journal_args(user, invocation_id).len() == user.len() + 4,
        spec_journal_args(user, invocation_id).last() == "_SYSTEMD_INVOCATION_ID="@
            + invocation_id,
{
    assert(Seq::<Seq<char>>::empty() + seq![
        "--no-pager"@,
        "-o"@,
        "cat"@,
        "_SYSTEMD_INVOCATION_ID="@ + invocation_id,
    ] =~= seq!["--no-pager"@, "-o"@, "cat"@, "_SYSTEMD_INVOCATION_ID="@ + invocation_id]);
}

/// `-p PROPERTY` for each property: two options per property, the `i`-th
/// property right after the `i`-th `-p`.
pub proof fn law_property_options(props: Seq<Seq<char>>, i: int)
    ensures
        property_options(props).len() == 2 * props.len(),
        0 <= i < props.len() ==> property_options(props)[2 * i] == "-p"@,
        0 <= i < props.len() ==> property_options(props)[2 * i + 1] == props[i],
    decreases props.len(),
{
    if props.len() > 0 {
        let init = props.drop_last();
        law_property_options(init, i);
        let head = property_options(init);
        let opts = property_options(props);
        assert(opts == head + seq!["-p"@, props.last()]);
        if 0 <= i < init.len() {
            assert(init[i] == props[i]);
            assert(opts[2 * i] == head[2 * i]);
            assert(opts[2 * i + 1] == head[2 * i + 1]);
        } else if i == init.len() {
            assert(opts[2 * i] == seq!["-p"@, props.last()][0]);
            assert(opts[2 * i + 1] == seq!["-p"@, props.last()][1]);
        }
    }
}

/// The arguments that show a service's properties are the user arguments,
/// whatever they are, followed by `show --no-pager`, `-p PROPERTY` for each
/// property in order, and the service's name, which always comes last.
pub proof fn law_show_args_for(
    user: Seq<Seq<char>>,
    props: Seq<Seq<char>>,
    service_name: Seq<char>,
    i: int,
)
    ensures
        spec_show_args_for(user, props, service_name).len() == user.len() + 2 * props.len() + 3,
        spec_show_args_for(user, props, service_name).take(user.len() as int) == user,
        spec_show_args_for(user, props, service_name)[user.len() as int] == "show"@,
        spec_show_args_for(user, props, service_name)[user.len() as int + 1] == "--no-pager"@,
        0 <= i < props.len() ==> spec_show_args_for(user, props, service_name)[user.len() + 2 + 2
            * i] == "-p"@,
        0 <= i < props.len() ==> spec_show_args_for(user, props, service_name)[user.len() + 3 + 2
            * i] == props[i],
        spec_show_args_for(user, props, service_name).last() == service_name,
        spec_show_args_for(user, props, service_name) == user + spec_show_args_for(
            Seq::<Seq<char>>::empty(),
            props,
            service_name,
        ),
{
    law_property_options(props, i);
    let args = spec_show_args_for(user, props, service_name);
    let opts = property_options(props);
    assert(args =~= user + seq!["show"@, "--no-pager"@] + opts + seq![service_name]);
    assert(args.take(user.len() as int) =~= user);
    if 0 <= i < props.len() {
        assert(args[user.len() + 2 + 2 * i] == opts[2 * i]);
        assert(args[user.len() + 3 + 2 * i] == opts[2 * i + 1]);
    }
    assert(Seq::<Seq<char>>::empty() + seq!["show"@, "--no-pager"@] =~= seq![
        "show"@,
        "--no-pager"@,
    ]);
    assert(args =~= user + spec_show_args_for(Seq::<Seq<char>>::empty(), props, service_name));
}

/// The unit file name is the unit name where it already ends in `'.'` and
/// a unit type, and the unit name with `".service"` appended otherwise;
/// either way it ends in a unit type's suffix, so resolving it again leaves
/// it as it is.
pub proof fn law_unit_file_name(unit_name: Seq<char>)
    ensures
        has_unit_suffix(unit_name) ==> spec_unit_file_name(unit_name, has_unit_suffix(unit_name))
            == unit_name,
        !has_unit_suffix(unit_name) ==> spec_unit_file_name(unit_name, has_unit_suffix(unit_name))
            == unit_name + ".service"@,
        has_unit_suffix(spec_unit_file_name(unit_name, has_unit_suffix(unit_name))),
        spec_unit_file_name(
            spec_unit_file_name(unit_name, has_unit_suffix(unit_name)),
            has_unit_suffix(spec_unit_file_name(unit_name, has_unit_suffix(unit_name))),
        ) == spec_unit_file_name(unit_name, has_unit_suffix(unit_name)),
{
    reveal_strlit("service");
    reveal_strlit(".service");
    if !has_unit_suffix(unit_name) {
        let named = unit_name + ".service"@;
        assert(seq!['.'] + unit_types()[0] =~= ".service"@);
        assert(named.skip(named.len() - 8) =~= ".service"@);
        assert(ends_with(named, seq!['.'] + unit_types()[0]));
    }
}

/// A pattern that matches the names that end in `'.'` and a unit type.
pub const UNIT_SUFFIX_PATTERN: &'static str =
    r"\.(service|socket|device|mount|automount|swap|target|path|timer|slice|scope)$";

/// Appends copies of `more` to `args`.
fn append_args(args: &mut Vec<String>, more: &Vec<String>)
    ensures
        string_views(final(args)@) == string_views(old(args)@) + string_views(more@),
{
    let ghost start = string_views(args@);
    let mut i: usize = 0;
    while i < more.len()
        invariant
            i <= more@.len(),
            string_views(args@) == start + string_views(more@).take(i as int),
        decreases more@.len() - i,
    {
        let ghost before = args@;
        args.push(more[i].clone());
        assert(string_views(args@) =~= string_views(before).push(more@[i as int]@));
        assert(string_views(more@).take(i + 1) =~= string_views(more@).take(i as int).push(
            more@[i as int]@,
        ));
        i += 1;
    }
    assert(string_views(more@).take(more@.len() as int) =~= string_views(more@));
}

/// The arguments of `systemctl` that show the properties `props` of a
/// service: `user_args`, `show --no-pager`, `-p PROPERTY` for each
/// property, and the service's name.
pub fn show_args_for(user_args: &Vec<String>, props: &Vec<String>, service_name: &str) -> (res:
    Vec<String>)
    ensures
        string_views(res@) == spec_show_args_for(
            string_views(user_args@),
            string_views(props@),
            service_name@,
        ),
{
    let mut res: Vec<String> = Vec::new();
    append_args(&mut res, user_args);
    push_arg(&mut res, "show");
    push_arg(&mut res, "--no-pager");
    let ghost head = string_views(res@);
    let mut i: usize = 0;
    while i < props.len()
        invariant
            i <= props@.len(),
            string_views(res@) == head + property_options(string_views(props@).take(i as int)),
        decreases props@.len() - i,
    {
        let ghost before = string_views(res@);
        push_arg(&mut res, "-p");
        push_arg(&mut res, props[i].as_str());
        let ghost taken = string_views(props@).take(i + 1);
        assert(taken.drop_last() =~= string_views(props@).take(i as int));
        assert(string_views(res@) =~= before + seq!["-p"@, taken.last()]);
        i += 1;
    }
    assert(string_views(props@).take(props@.len() as int) =~= string_views(props@));
    push_arg(&mut res, service_name);
    assert(string_views(res@) =~= spec_show_args_for(
        string_views(user_args@),
        string_views(props@),
        service_name@,
    ));
    res
}

/// The arguments of `systemctl` that show the service's properties:
/// `user_args`, `show --no-pager`, `-p PROPERTY` for each property, and the
/// service's name.
pub fn show_args(user_args: &Vec<String>, service_name: &str) -> (res: Vec<String>)
    ensures
        string_views(res@) == spec_show_args(string_views(user_args@), service_name@),
{
    show_args_for(user_args, &journal_properties(), service_name)
}

/// The arguments of `journalctl` that print the messages of one run:
/// `user_args`, `--no-pager -o cat` and the match on the invocation id.
pub fn journal_args(user_args: &Vec<String>, invocation_id: &str) -> (res: Vec<String>)
    ensures
        string_views(res@) == spec_journal_args(string_views(user_args@), invocation_id@),
{
    let mut res: Vec<String> = Vec::new();
    append_args(&mut res, user_args);
    push_arg(&mut res, "--no-pager");
    push_arg(&mut res, "-o");
    push_arg(&mut res, "cat");
    let mut field = String::new();
    push_str_chars(&mut field, "_SYSTEMD_INVOCATION_ID=");
    push_str_chars(&mut field, invocation_id);
    assert(field@ =~= "_SYSTEMD_INVOCATION_ID="@ + invocation_id@);
    let ghost before = res@;
    res.push(field);
    assert(string_views(res@) =~= string_views(before).push(field@));
    assert(string_views(res@) =~= spec_journal_args(string_views(user_args@), invocation_id@));
    res
}

/// The unit name that `systemctl list-unit-files` is asked for, where
/// `has_unit_suffix` tells whether `unit_name` ends in a unit type's suffix.
pub fn unit_file_name(unit_name: &str, has_unit_suffix: bool) -> (res: String)
    ensures
        res@ == spec_unit_file_name(unit_name@, has_unit_suffix),
{
    let mut res = String::new();
    push_str_chars(&mut res, unit_name);
    if !has_unit_suffix {
        push_str_chars(&mut res, ".service");
    }
    assert(res@ =~= spec_unit_file_name(unit_name@, has_unit_suffix));
    res
}

/// The unit name that `systemctl list-unit-files` is asked for:
/// `".service"` is appended unless `UNIT_SUFFIX_PATTERN` matches, that is,
/// unless the name ends in `'.'` and a unit type.
pub fn resolve_unit_file_name(unit_name: &str) -> (res: String)
    ensures
        res@ == spec_unit_file_name(unit_name@, has_unit_suffix(unit_name@)),
{
    match regex_is_match(UNIT_SUFFIX_PATTERN, unit_name) {
        Some(m) => unit_file_name(unit_name, m),
        None => {
            proof {
                assert(false);
            }
            unit_file_name(unit_name, false)
        },
    }
}

/// The arguments of `systemctl` that ask whether a unit file exists:
/// `user_args`, `list-unit-files -q` and the unit name.
pub fn list_unit_files_args(user_args: &Vec<String>, unit_file: &str) -> (res: Vec<String>)
    ensures
        string_views(res@) == spec_list_unit_files_args(string_views(user_args@), unit_file@),
{
    let mut res: Vec<String> = Vec::new();
    append_args(&mut res, user_args);
    push_arg(&mut res, "list-unit-files");
    push_arg(&mut res, "-q");
    push_arg(&mut res, unit_file);
    assert(string_views(res@) =~= spec_list_unit_files_args(
        string_views(user_args@),
        unit_file@,
    ));
    res
}

/// The service's state from a run of `systemctl show`: the run's failure
/// and output that is not UTF-8 are errors, as is an `ExecMainStatus` that
/// is not an `i64`. An empty user is backfilled from the user database; the
/// second part of the result is the lookup's failure, where it failed.
pub fn service_info_from_output(success: bool, exit_code: Option<i32>, stdout: Vec<u8>) -> (res:
    Result<(ServiceInfo, Option<NotifierError>), NotifierError>)
    ensures
        !success ==> res == Err::<(ServiceInfo, Option<NotifierError>), NotifierError>(
            NotifierError::CommandFailed { tool: SystemdTool::Systemctl, code: exit_code },
        ),
        success && !vstd::utf8::valid_utf8(stdout@) ==> res == Err::<
            (ServiceInfo, Option<NotifierError>),
            NotifierError,
        >(NotifierError::CorruptedOutput),
        success && vstd::utf8::valid_utf8(stdout@) ==> match spec_parse_service_info(
            vstd::utf8::decode_utf8(stdout@),
        ) {
            Err(kind) => res == Err::<(ServiceInfo, Option<NotifierError>), NotifierError>(
                NotifierError::InvalidInteger { kind },
            ),
            Ok(parsed) => (res matches Ok((info, lookup_failure)) && info@ == (ServiceInfoModel {
                user: info@.user,
                ..parsed
            }) && (parsed.user.len() > 0 ==> info@.user == parsed.user && lookup_failure is None)
                && (parsed.user.len() == 0 ==> match lookup_failure {
                Some(e) => info@.user.len() == 0 && (e == NotifierError::NoUserFound || e
                    == NotifierError::UserLookupFailed),
                None => exists|name: Seq<char>| info@.user == seq!['*'] + name,
            })),
        },
{
    if !success {
        return Err(NotifierError::CommandFailed { tool: SystemdTool::Systemctl, code: exit_code });
    }
    let text = match decode_output(stdout) {
        Some(text) => text,
        None => {
            return Err(NotifierError::CorruptedOutput);
        },
    };
    match parse_service_info(text.as_str()) {
        Ok(info) => {
            if info.user.as_str().is_empty() {
                let looked_up = get_user_name();
                Ok(with_user_backfill(info, looked_up))
            } else {
                Ok((info, None))
            }
        },
        Err(kind) => Err(NotifierError::InvalidInteger { kind }),
    }
}

/// The messages of a run from a run of `journalctl`: the run's failure and
/// output that is not UTF-8 are errors.
pub fn invocation_logs_from_output(success: bool, exit_code: Option<i32>, stdout: Vec<u8>) -> (res:
    Result<String, NotifierError>)
    ensures
        !success ==> res == Err::<String, NotifierError>(
            NotifierError::CommandFailed { tool: SystemdTool::Journalctl, code: exit_code },
        ),
        success && !vstd::utf8::valid_utf8(stdout@) ==> res == Err::<String, NotifierError>(
            NotifierError::CorruptedOutput,
        ),
        success && vstd::utf8::valid_utf8(stdout@) ==> (res matches Ok(logs) && logs@
            == vstd::utf8::decode_utf8(stdout@)),
{
    if !success {
        return Err(NotifierError::CommandFailed { tool: SystemdTool::Journalctl, code: exit_code });
    }
    match decode_output(stdout) {
        Some(text) => Ok(text),
        None => Err(NotifierError::CorruptedOutput),
    }
}

} // verus!
