//! A compact service report: fewer properties, numbers that must parse,
//! and the environment as a map from names to values.
//!
//! The commands are run by the caller, which hands back whether they
//! succeeded and their standard output.

use vstd::prelude::*;

use crate::error::NotifierError;
use crate::systemd_logs::{
    decode_output, environment_of, environment_pairs, pair_views, push_arg, show_args_for,
    spec_show_args_for, split_words_or_none, string_of, string_views,
};
use crate::text::{
    chars_eq_str, chars_of, lines_of, parse_u64, spec_lines, spec_parse_u64, split_at_eq,
    split_at_first_eq, str_eq, IntErrorKind,
};

verus! {

// ---------------------------------------------------------------------------
// The environment map
// ---------------------------------------------------------------------------

/// The map that inserting the pairs in order gives: a later value for a
/// name replaces an earlier one.
pub open spec fn map_of_pairs(pairs: Seq<(Seq<char>, Seq<char>)>) -> Map<Seq<char>, Seq<char>>
    decreases pairs.len(),
{
    if pairs.len() == 0 {
        Map::empty()
    } else {
        map_of_pairs(pairs.drop_last()).insert(pairs.last().0, pairs.last().1)
    }
}

/// No name occurs twice.
pub open spec fn distinct_names(pairs: Seq<(Seq<char>, Seq<char>)>) -> bool {
    forall|i: int, j: int| 0 <= i < j < pairs.len() ==> pairs[i].0 != pairs[j].0
}

/// Environment variables by name, each name once, in the order in which
/// the names first came.
#[derive(Debug)]
pub struct EnvironmentMap {
    entries: Vec<(String, String)>,
}

impl View for EnvironmentMap {
    type V = Map<Seq<char>, Seq<char>>;

    closed spec fn view(&self) -> Map<Seq<char>, Seq<char>> {
        map_of_pairs(pair_views(self.entries@))
    }
}

/// The names of the map are the names of the pairs.
proof fn lemma_map_of_pairs_dom(pairs: Seq<(Seq<char>, Seq<char>)>, name: Seq<char>)
    ensures
        map_of_pairs(pairs).dom().contains(name) <==> exists|i: int|
            0 <= i < pairs.len() && #[trigger] pairs[i].0 == name,
    decreases pairs.len(),
{
    if pairs.len() > 0 {
        let init = pairs.drop_last();
        lemma_map_of_pairs_dom(init, name);
        if exists|i: int| 0 <= i < init.len() && #[trigger] init[i].0 == name {
            let i = choose|i: int| 0 <= i < init.len() && #[trigger] init[i].0 == name;
            assert(pairs[i] == init[i]);
        }
        if exists|i: int| 0 <= i < pairs.len() && #[trigger] pairs[i].0 == name {
            let i = choose|i: int| 0 <= i < pairs.len() && #[trigger] pairs[i].0 == name;
            if i < pairs.len() - 1 {
                assert(init[i] == pairs[i]);
            }
        }
    }
}

/// With distinct names, each pair's name maps to its value.
proof fn lemma_map_of_pairs_value(pairs: Seq<(Seq<char>, Seq<char>)>, j: int)
    requires
        distinct_names(pairs),
        0 <= j < pairs.len(),
    ensures
        map_of_pairs(pairs).dom().contains(pairs[j].0),
        map_of_pairs(pairs)[pairs[j].0] == pairs[j].1,
    decreases pairs.len(),
{
    let init = pairs.drop_last();
    if j < pairs.len() - 1 {
        assert(init[j] == pairs[j]);
        assert(distinct_names(init)) by {
            assert forall|a: int, b: int| 0 <= a < b < init.len() implies init[a].0 != init[b].0 by {
                assert(init[a] == pairs[a] && init[b] == pairs[b]);
            }
        }
        lemma_map_of_pairs_value(init, j);
        assert(pairs.last().0 != pairs[j].0);
    }
}

/// With distinct names, replacing the value of the `j`-th pair is
/// inserting into the map.
proof fn lemma_map_of_pairs_update(pairs: Seq<(Seq<char>, Seq<char>)>, j: int, value: Seq<char>)
    requires
        distinct_names(pairs),
        0 <= j < pairs.len(),
    ensures
        map_of_pairs(pairs.update(j, (pairs[j].0, value))) == map_of_pairs(pairs).insert(
            pairs[j].0,
            value,
        ),
    decreases pairs.len(),
{
    let name = pairs[j].0;
    let updated = pairs.update(j, (name, value));
    let init = pairs.drop_last();
    if j == pairs.len() - 1 {
        assert(updated.drop_last() =~= init);
        assert(map_of_pairs(updated) =~= map_of_pairs(pairs).insert(name, value));
    } else {
        assert(distinct_names(init)) by {
            assert forall|a: int, b: int| 0 <= a < b < init.len() implies init[a].0 != init[b].0 by {
                assert(init[a] == pairs[a] && init[b] == pairs[b]);
            }
        }
        assert(init[j] == pairs[j]);
        lemma_map_of_pairs_update(init, j, value);
        assert(updated.drop_last() =~= init.update(j, (name, value)));
        assert(updated.last() == pairs.last());
        assert(pairs.last().0 != name);
        assert(map_of_pairs(updated) =~= map_of_pairs(pairs).insert(name, value));
    }
}

impl EnvironmentMap {
    /// No name occurs twice.
    #[verifier::type_invariant]
    closed spec fn names_distinct(&self) -> bool {
        distinct_names(pair_views(self.entries@))
    }

    /// An empty map.
    pub fn new() -> (res: Self)
        ensures
            res@ == Map::<Seq<char>, Seq<char>>::empty(),
    {
        let res = EnvironmentMap { entries: Vec::new() };
        assert(pair_views(res.entries@) =~= seq![]);
        res
    }

    /// The number of names.
    pub fn len(&self) -> (res: usize)
        ensures
            res == self@.len(),
    {
        proof {
            use_type_invariant(self);
            lemma_distinct_map_len(pair_views(self.entries@));
        }
        self.entries.len()
    }

    /// Sets `name` to `value`, in place of an earlier value.
    pub fn insert(&mut self, name: String, value: String)
        ensures
            final(self)@ == old(self)@.insert(name@, value@),
    {
        proof {
            use_type_invariant(&*self);
        }
        let ghost pairs = pair_views(self.entries@);
        let ghost nm = name@;
        let ghost nv = value@;
        let mut entries: Vec<(String, String)> = Vec::new();
        std::mem::swap(&mut entries, &mut self.entries);
        assert(pair_views(entries@) == pairs);
        let n = entries.len();
        let mut i: usize = 0;
        while i < n
            invariant
                n == entries@.len(),
                pairs == pair_views(entries@),
                distinct_names(pairs),
                nm == name@,
                nv == value@,
                pairs == pair_views(old(self).entries@),
                i <= n,
                forall|j: int| 0 <= j < i ==> pairs[j].0 != nm,
            decreases n - i,
        {
            if entries[i].0 == name {
                proof {
                    lemma_map_of_pairs_update(pairs, i as int, nv);
                }
                assert(pairs[i as int].0 == nm);
                entries.set(i, (name, value));
                assert(pair_views(entries@) =~= pairs.update(i as int, (pairs[i as int].0, nv)));
                assert(distinct_names(pair_views(entries@)));
                self.entries = entries;
                return;
            }
            i += 1;
        }
        entries.push((name, value));
        assert(pair_views(entries@) =~= pairs.push((nm, nv)));
        assert(pair_views(entries@).drop_last() =~= pairs);
        assert(distinct_names(pair_views(entries@)));
        self.entries = entries;
    }

    /// The value of `name`, if it is set.
    pub fn get(&self, name: &str) -> (res: Option<&String>)
        ensures
            match res {
                Some(v) => self@.dom().contains(name@) && self@[name@] == v@,
                None => !self@.dom().contains(name@),
            },
    {
        proof {
            use_type_invariant(self);
        }
        let ghost pairs = pair_views(self.entries@);
        let mut i: usize = 0;
        while i < self.entries.len()
            invariant
                pairs == pair_views(self.entries@),
                distinct_names(pairs),
                i <= self.entries@.len(),
                forall|j: int| 0 <= j < i ==> pairs[j].0 != name@,
            decreases self.entries@.len() - i,
        {
            if str_eq(self.entries[i].0.as_str(), name) {
                proof {
                    lemma_map_of_pairs_value(pairs, i as int);
                }
                return Some(&self.entries[i].1);
            }
            i += 1;
        }
        proof {
            lemma_map_of_pairs_dom(pairs, name@);
        }
        None
    }

    /// The map that inserting the pairs in order gives.
    pub fn from_pairs(pairs: &Vec<(String, String)>) -> (res: Self)
        ensures
            res@ == map_of_pairs(pair_views(pairs@)),
    {
        let ghost all = pair_views(pairs@);
        let mut res = EnvironmentMap::new();
        let mut i: usize = 0;
        assert(all.take(0) =~= seq![]);
        while i < pairs.len()
            invariant
                i <= pairs@.len(),
                all == pair_views(pairs@),
                res@ == map_of_pairs(all.take(i as int)),
            decreases pairs@.len() - i,
        {
            let name = pairs[i].0.clone();
            let value = pairs[i].1.clone();
            res.insert(name, value);
            assert(all.take(i + 1).drop_last() =~= all.take(i as int));
            assert(all.take(i + 1).last() == all[i as int]);
            i += 1;
        }
        assert(all.take(pairs@.len() as int) =~= all);
        res
    }
}

/// With distinct names the map has one name per pair.
proof fn lemma_distinct_map_len(pairs: Seq<(Seq<char>, Seq<char>)>)
    requires
        distinct_names(pairs),
    ensures
        map_of_pairs(pairs).dom().finite(),
        map_of_pairs(pairs).len() == pairs.len(),
    decreases pairs.len(),
{
    if pairs.len() > 0 {
        let init = pairs.drop_last();
        assert(distinct_names(init)) by {
            assert forall|a: int, b: int| 0 <= a < b < init.len() implies init[a].0 != init[b].0 by {
                assert(init[a] == pairs[a] && init[b] == pairs[b]);
            }
        }
        lemma_distinct_map_len(init);
        lemma_map_of_pairs_dom(init, pairs.last().0);
        if exists|i: int| 0 <= i < init.len() && #[trigger] init[i].0 == pairs.last().0 {
            let i = choose|i: int| 0 <= i < init.len() && #[trigger] init[i].0 == pairs.last().0;
            assert(init[i] == pairs[i]);
            assert(false);
        }
    }
}


// ---------------------------------------------------------------------------
// Service information
// ---------------------------------------------------------------------------

/// A service's state, as the compact report reads it.
#[derive(Debug)]
pub struct ServiceInfo {
    pub invocation_id: String,
    pub start_timestamp: String,
    pub exit_timestamp: String,
    pub memory_peak: u64,
    pub cpu_usage_ns: u64,
    pub environment_str: String,
    pub environment_map: EnvironmentMap,
    pub user: String,
    pub status_errno: u64,
    pub result: String,
}

/// The mathematical value of a `ServiceInfo`.
pub struct ServiceInfoModel {
    pub invocation_id: Seq<char>,
    pub start_timestamp: Seq<char>,
    pub exit_timestamp: Seq<char>,
    pub memory_peak: u64,
    pub cpu_usage_ns: u64,
    pub environment_str: Seq<char>,
    pub environment_map: Map<Seq<char>, Seq<char>>,
    pub user: Seq<char>,
    pub status_errno: u64,
    pub result: Seq<char>,
}

impl View for ServiceInfo {
    type V = ServiceInfoModel;

    open spec fn view(&self) -> ServiceInfoModel {
        ServiceInfoModel {
            invocation_id: self.invocation_id@,
            start_timestamp: self.start_timestamp@,
            exit_timestamp: self.exit_timestamp@,
            memory_peak: self.memory_peak,
            cpu_usage_ns: self.cpu_usage_ns,
            environment_str: self.environment_str@,
            environment_map: self.environment_map@,
            user: self.user@,
            status_errno: self.status_errno,
            result: self.result@,
        }
    }
}

/// The state before any property was read: empty texts and maps, zeros.
pub open spec fn empty_service_info() -> ServiceInfoModel {
    ServiceInfoModel {
        invocation_id: seq![],
        start_timestamp: seq![],
        exit_timestamp: seq![],
        memory_peak: 0,
        cpu_usage_ns: 0,
        environment_str: seq![],
        environment_map: Map::empty(),
        user: seq![],
        status_errno: 0,
        result: seq![],
    }
}

impl Default for ServiceInfo {
    fn default() -> (res: Self)
        ensures
            res@ == empty_service_info(),
    {
        ServiceInfo {
            invocation_id: String::new(),
            start_timestamp: String::new(),
            exit_timestamp: String::new(),
            memory_peak: 0,
            cpu_usage_ns: 0,
            environment_str: String::new(),
            environment_map: EnvironmentMap::new(),
            user: String::new(),
            status_errno: 0,
            result: String::new(),
        }
    }
}

/// The properties asked of `systemctl show`, in order.
pub open spec fn spec_journal_properties() -> Seq<Seq<char>> {
    seq![
        "InvocationID"@,
        "ExecMainStartTimestamp"@,
        "ExecMainExitTimestamp"@,
        "MemoryPeak"@,
        "CPUUsageNSec"@,
        "Environment"@,
        "User"@,
        "StatusErrno"@,
        "Result"@,
    ]
}

/// The arguments of `systemctl` that show the service's properties; the
/// service manager is not chosen.
pub open spec fn spec_show_args(service_name: Seq<char>) -> Seq<Seq<char>> {
    spec_show_args_for(seq![], spec_journal_properties(), service_name)
}

/// The arguments of `journalctl` that print the messages of one run; the
/// service manager is not chosen.
pub open spec fn spec_journal_args(invocation_id: Seq<char>) -> Seq<Seq<char>> {
    crate::systemd_logs::spec_journal_args(seq![], invocation_id)
}

/// `text.parse::<u64>()` into the state, or its failure.
pub open spec fn with_u64(
    text: Seq<char>,
    set: spec_fn(u64) -> ServiceInfoModel,
) -> Result<ServiceInfoModel, IntErrorKind> {
    match spec_parse_u64(text) {
        Ok(v) => Ok(set(v)),
        Err(e) => Err(e),
    }
}

/// What reading one property does to the state. Unknown properties leave
/// it unchanged; `MemoryPeak`, `CPUUsageNSec` and `StatusErrno` fail when
/// their value is not a `u64`.
pub open spec fn apply_property(m: ServiceInfoModel, key: Seq<char>, value: Seq<char>) -> Result<
    ServiceInfoModel,
    IntErrorKind,
> {
    if key == "InvocationID"@ {
        Ok(ServiceInfoModel { invocation_id: value, ..m })
    } else if key == "ExecMainStartTimestamp"@ {
        Ok(ServiceInfoModel { start_timestamp: value, ..m })
    } else if key == "ExecMainExitTimestamp"@ {
        Ok(ServiceInfoModel { exit_timestamp: value, ..m })
    } else if key == "MemoryPeak"@ {
        with_u64(value, |v: u64| ServiceInfoModel { memory_peak: v, ..m })
    } else if key == "CPUUsageNSec"@ {
        with_u64(value, |v: u64| ServiceInfoModel { cpu_usage_ns: v, ..m })
    } else if key == "Environment"@ {
        Ok(
            ServiceInfoModel {
                environment_str: value,
                environment_map: map_of_pairs(environment_of(value)),
                ..m
            },
        )
    } else if key == "User"@ {
        Ok(ServiceInfoModel { user: value, ..m })
    } else if key == "StatusErrno"@ {
        with_u64(value, |v: u64| ServiceInfoModel { status_errno: v, ..m })
    } else if key == "Result"@ {
        Ok(ServiceInfoModel { result: value, ..m })
    } else {
        Ok(m)
    }
}

/// What reading one line does: a line without `'='` changes nothing.
pub open spec fn apply_line(m: ServiceInfoModel, line: Seq<char>) -> Result<
    ServiceInfoModel,
    IntErrorKind,
> {
    match split_at_eq(line) {
        Some((key, value)) => apply_property(m, key, value),
        None => Ok(m),
    }
}

/// Reads `lines` in order; the first failure ends the read.
pub open spec fn apply_lines(m: ServiceInfoModel, lines: Seq<Seq<char>>) -> Result<
    ServiceInfoModel,
    IntErrorKind,
>
    decreases lines.len(),
{
    if lines.len() == 0 {
        Ok(m)
    } else {
        match apply_line(m, lines[0]) {
            Ok(next) => apply_lines(next, lines.drop_first()),
            Err(e) => Err(e),
        }
    }
}

/// The state that the output of `systemctl show` describes.
pub open spec fn spec_parse_service_info(output: Seq<char>) -> Result<
    ServiceInfoModel,
    IntErrorKind,
> {
    apply_lines(empty_service_info(), spec_lines(output))
}

/// The properties asked of `systemctl show`, in order.
pub fn journal_properties() -> (res: Vec<String>)
    ensures
        string_views(res@) == spec_journal_properties(),
{
    let mut res: Vec<String> = Vec::new();
    push_arg(&mut res, "InvocationID");
    push_arg(&mut res, "ExecMainStartTimestamp");
    push_arg(&mut res, "ExecMainExitTimestamp");
    push_arg(&mut res, "MemoryPeak");
    push_arg(&mut res, "CPUUsageNSec");
    push_arg(&mut res, "Environment");
    push_arg(&mut res, "User");
    push_arg(&mut res, "StatusErrno");
    push_arg(&mut res, "Result");
    assert(string_views(res@) =~= spec_journal_properties());
    res
}

/// The arguments of `systemctl` that show the service's properties:
/// `show --no-pager`, `-p PROPERTY` for each property, and the service's
/// name.
pub fn show_args(service_name: &str) -> (res: Vec<String>)
    ensures
        string_views(res@) == spec_show_args(service_name@),
{
    let no_user: Vec<String> = Vec::new();
    assert(string_views(no_user@) =~= seq![]);
    show_args_for(&no_user, &journal_properties(), service_name)
}

/// The arguments of `journalctl` that print the messages of one run:
/// `--no-pager -o cat` and the match on the invocation id.
pub fn journal_args(invocation_id: &str) -> (res: Vec<String>)
    ensures
        string_views(res@) == spec_journal_args(invocation_id@),
{
    let no_user: Vec<String> = Vec::new();
    assert(string_views(no_user@) =~= seq![]);
    crate::systemd_logs::journal_args(&no_user, invocation_id)
}

/// Reads the property `key` with the value `value` into `info`.
pub fn set_property(info: &mut ServiceInfo, key: &Vec<char>, value: &Vec<char>) -> (res: Result<
    (),
    IntErrorKind,
>)
    ensures
        match res {
            Ok(()) => apply_property(old(info)@, key@, value@) == Ok::<
                ServiceInfoModel,
                IntErrorKind,
            >(final(info)@),
            Err(e) => apply_property(old(info)@, key@, value@) == Err::<
                ServiceInfoModel,
                IntErrorKind,
            >(e),
        },
{
    if chars_eq_str(key, "InvocationID") {
        info.invocation_id = string_of(value);
    } else if chars_eq_str(key, "ExecMainStartTimestamp") {
        info.start_timestamp = string_of(value);
    } else if chars_eq_str(key, "ExecMainExitTimestamp") {
        info.exit_timestamp = string_of(value);
    } else if chars_eq_str(key, "MemoryPeak") {
        match parse_u64(value) {
            Ok(v) => {
                info.memory_peak = v;
            },
            Err(e) => {
                return Err(e);
            },
        }
    } else if chars_eq_str(key, "CPUUsageNSec") {
        match parse_u64(value) {
            Ok(v) => {
                info.cpu_usage_ns = v;
            },
            Err(e) => {
                return Err(e);
            },
        }
    } else if chars_eq_str(key, "Environment") {
        let text = string_of(value);
        let words = split_words_or_none(&text);
        let pairs = environment_pairs(&words);
        info.environment_map = EnvironmentMap::from_pairs(&pairs);
        info.environment_str = text;
    } else if chars_eq_str(key, "User") {
        info.user = string_of(value);
    } else if chars_eq_str(key, "StatusErrno") {
        match parse_u64(value) {
            Ok(v) => {
                info.status_errno = v;
            },
            Err(e) => {
                return Err(e);
            },
        }
    } else if chars_eq_str(key, "Result") {
        info.result = string_of(value);
    }
    Ok(())
}

/// Reads the output of `systemctl show` (`KEY=VALUE` lines) into a
/// `ServiceInfo`; fails where `MemoryPeak`, `CPUUsageNSec` or `StatusErrno`
/// is not a `u64`.
pub fn parse_service_info(output: &str) -> (res: Result<ServiceInfo, IntErrorKind>)
    ensures
        match res {
            Ok(info) => spec_parse_service_info(output@) == Ok::<
                ServiceInfoModel,
                IntErrorKind,
            >(info@),
            Err(e) => spec_parse_service_info(output@) == Err::<ServiceInfoModel, IntErrorKind>(
                e,
            ),
        },
{
    let cs = chars_of(output);
    let ls = lines_of(&cs);
    let ghost all = ls@.map_values(|l: Vec<char>| l@);
    let mut info = ServiceInfo::default();
    let mut k: usize = 0;
    assert(all.skip(0) =~= all);
    while k < ls.len()
        invariant
            k <= ls@.len(),
            all == ls@.map_values(|l: Vec<char>| l@),
            spec_parse_service_info(output@) == apply_lines(info@, all.skip(k as int)),
        decreases ls@.len() - k,
    {
        assert(all.skip(k as int).drop_first() =~= all.skip(k + 1));
        assert(all.skip(k as int)[0] == ls@[k as int]@);
        match split_at_first_eq(&ls[k]) {
            Some((key, value)) => {
                match set_property(&mut info, &key, &value) {
                    Ok(()) => {},
                    Err(e) => {
                        return Err(e);
                    },
                }
            },
            None => {},
        }
        k += 1;
    }
    assert(all.skip(k as int) =~= Seq::<Seq<char>>::empty());
    Ok(info)
}

/// The service's state from a run of `systemctl show`: the run's failure,
/// output that is not UTF-8 and numbers that do not parse are errors.
pub fn service_info_from_output(success: bool, stdout: Vec<u8>) -> (res: Result<
    ServiceInfo,
    NotifierError,
>)
    ensures
        !success ==> res == Err::<ServiceInfo, NotifierError>(NotifierError::CommandUnsuccessful),
        success && !vstd::utf8::valid_utf8(stdout@) ==> res == Err::<ServiceInfo, NotifierError>(
            NotifierError::CorruptedOutput,
        ),
        success && vstd::utf8::valid_utf8(stdout@) ==> match spec_parse_service_info(
            vstd::utf8::decode_utf8(stdout@),
        ) {
            Err(kind) => res == Err::<ServiceInfo, NotifierError>(
                NotifierError::InvalidInteger { kind },
            ),
            Ok(parsed) => (res matches Ok(info) && info@ == parsed),
        },
{
    if !success {
        return Err(NotifierError::CommandUnsuccessful);
    }
    let text = match decode_output(stdout) {
        Some(text) => text,
        None => {
            return Err(NotifierError::CorruptedOutput);
        },
    };
    match parse_service_info(text.as_str()) {
        Ok(info) => Ok(info),
        Err(kind) => Err(NotifierError::InvalidInteger { kind }),
    }
}

/// The messages of a run from a run of `journalctl`: the run's failure and
/// output that is not UTF-8 are errors.
pub fn invocation_logs_from_output(success: bool, stdout: Vec<u8>) -> (res: Result<
    String,
    NotifierError,
>)
    ensures
        !success ==> res == Err::<String, NotifierError>(NotifierError::CommandUnsuccessful),
        success && !vstd::utf8::valid_utf8(stdout@) ==> res == Err::<String, NotifierError>(
            NotifierError::CorruptedOutput,
        ),
        success && vstd::utf8::valid_utf8(stdout@) ==> (res matches Ok(logs) && logs@
            == vstd::utf8::decode_utf8(stdout@)),
{
    if !success {
        return Err(NotifierError::CommandUnsuccessful);
    }
    match decode_output(stdout) {
        Some(text) => Ok(text),
        None => Err(NotifierError::CorruptedOutput),
    }
}

} // verus!
