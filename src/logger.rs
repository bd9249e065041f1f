//! Which log lines are shown, and how a line is split for display.
use vstd::prelude::*;
use vstd::string::*;

use crate::text::{is_prefix, starts_with};

verus! {

/// A group of dependency logs that the user can ask to see.
#[derive(Debug, Clone, Copy, PartialEq, Eq, Structural)]
pub enum Log {
    Wasm,
    Server,
}

/// The severity of a log line.
#[derive(Debug, Clone, Copy, PartialEq, Eq, Structural)]
pub enum Level {
    Error,
    Warn,
    Info,
    Debug,
    Trace,
}

pub open spec fn flag_of(l: Log) -> u8 {
    match l {
        Log::Wasm => 1,
        Log::Server => 2,
    }
}

/// The bits of all the groups asked for.
pub open spec fn flags_of(logs: Seq<Log>) -> u8
    decreases logs.len(),
{
    if logs.len() == 0 {
        0
    } else {
        flags_of(logs.drop_last()) | flag_of(logs.last())
    }
}

impl Log {
    /// The bit that stands for the group.
    pub fn flag(&self) -> (r: u8)
        ensures
            r == flag_of(*self),
    {
        match self {
            Log::Wasm => 1,
            Log::Server => 2,
        }
    }
}

impl Level {
    /// The 256-colour palette index that the level is shown in.
    pub fn color(&self) -> (r: u8)
        ensures
            r == match *self {
                Level::Error => 196u8,
                Level::Warn => 214u8,
                Level::Info => 77u8,
                Level::Debug => 26u8,
                Level::Trace => 98u8,
            },
    {
        match self {
            Level::Error => 196,
            Level::Warn => 214,
            Level::Info => 77,
            Level::Debug => 26,
            Level::Trace => 98,
        }
    }
}

/// The set of dependency log groups to show.
#[derive(Debug, Clone, Copy, PartialEq, Eq, Structural)]
pub struct LogFlag(pub u8);

pub open spec fn server_target(t: Seq<char>) -> bool {
    is_prefix("hyper"@, t) || is_prefix("axum"@, t)
}

pub open spec fn wasm_target(t: Seq<char>) -> bool {
    is_prefix("wasm"@, t) || is_prefix("walrus"@, t)
}

pub open spec fn flag_set(f: LogFlag, l: Log) -> bool {
    flag_of(l) & f.0 != 0
}

impl LogFlag {
    /// The groups of `logs`, together.
    pub fn new(logs: &[Log]) -> (r: LogFlag)
        ensures
            r.0 == flags_of(logs@),
    {
        let mut acc: u8 = 0;
        let mut i: usize = 0;
        while i < logs.len()
            invariant
                i <= logs@.len(),
                acc == flags_of(logs@.subrange(0, i as int)),
            decreases logs@.len() - i,
        {
            assert(logs@.subrange(0, i as int + 1).drop_last() =~= logs@.subrange(0, i as int));
            acc = acc | logs[i].flag();
            i = i + 1;
        }
        assert(logs@.subrange(0, logs@.len() as int) =~= logs@);
        LogFlag(acc)
    }

    pub fn is_set(&self, log: Log) -> (r: bool)
        ensures
            r == flag_set(*self, log),
    {
        log.flag() & self.0 != 0
    }

    /// Whether a line from `target` belongs to a group asked for.
    pub fn matches(&self, target: &str) -> (r: bool)
        ensures
            r == ((flag_set(*self, Log::Server) && server_target(target@)) || (flag_set(*self, Log::Wasm)
                && wasm_target(target@))),
    {
        self.do_server_log(target) || self.do_wasm_log(target)
    }

    pub fn do_server_log(&self, target: &str) -> (r: bool)
        ensures
            r == (flag_set(*self, Log::Server) && server_target(target@)),
    {
        self.is_set(Log::Server) && (starts_with(target, "hyper") || starts_with(target, "axum"))
    }

    pub fn do_wasm_log(&self, target: &str) -> (r: bool)
        ensures
            r == (flag_set(*self, Log::Wasm) && wasm_target(target@)),
    {
        self.is_set(Log::Wasm) && (starts_with(target, "wasm") || starts_with(target, "walrus"))
    }
}

/// A group asked for is shown, and one not asked for is not.
pub proof fn lemma_flag_of_listed(logs: Seq<Log>, l: Log)
    ensures
        flag_set(LogFlag(flags_of(logs)), l) <==> logs.contains(l),
    decreases logs.len(),
{
    if logs.len() > 0 {
        lemma_flag_of_listed(logs.drop_last(), l);
        let p = flags_of(logs.drop_last());
        let q = flag_of(logs.last());
        let b = flag_of(l);
        assert(b == 1 || b == 2);
        assert(q == 1 || q == 2);
        assert((b & (p | q) != 0) <==> ((b & p != 0) || b == q)) by (bit_vector)
            requires
                b == 1u8 || b == 2u8,
                q == 1u8 || q == 2u8,
        ;
        assert(b == q <==> l == logs.last());
        if logs.drop_last().contains(l) {
            let i = choose|i: int| 0 <= i < logs.drop_last().len() && logs.drop_last()[i] == l;
            assert(logs[i] == l);
        }
        if logs.contains(l) && l != logs.last() {
            let i = choose|i: int| 0 <= i < logs.len() && logs[i] == l;
            assert(i < logs.len() - 1);
            assert(logs.drop_last()[i] == l);
        }
        if l == logs.last() {
            assert(logs[logs.len() - 1] == l);
        }
        assert(flags_of(logs) == p | q);
        assert(flag_set(LogFlag(flags_of(logs)), l) == (b & (p | q) != 0));
        assert(flag_set(LogFlag(p), l) == (b & p != 0));
    } else {
        let b = flag_of(l);
        assert(b & 0u8 == 0) by (bit_vector);
        assert(!logs.contains(l));
    }
}

/// The log line filter: errors and the tool's own lines are always shown,
/// dependency lines only for the groups asked for.
pub struct Filter;

impl Filter {
    pub fn accepts(&self, level: Level, target: &str, flag: Option<LogFlag>) -> (r: bool)
        ensures
            r == (level == Level::Error || is_prefix("cargo_leptos"@, target@) || match flag {
                Some(f) => (flag_set(f, Log::Server) && server_target(target@)) || (flag_set(f, Log::Wasm)
                    && wasm_target(target@)),
                None => false,
            }),
    {
        level == Level::Error || starts_with(target, "cargo_leptos") || match flag {
            Some(f) => f.matches(target),
            None => false,
        }
    }
}

pub open spec fn no_space(s: Seq<char>) -> bool {
    forall|i: int| 0 <= i < s.len() ==> s[i] != ' '
}

/// Splits a message at its first space; with no space the first word is empty.
pub fn split(args: &str) -> (r: (&str, &str))
    ensures
        no_space(args@) ==> r.0@.len() == 0 && r.1@ == args@,
        !no_space(args@) ==> r.0@ + seq![' '] + r.1@ == args@ && no_space(r.0@),
{
    let n = args.unicode_len();
    let mut i: usize = 0;
    while i < n
        invariant
            n == args@.len(),
            i <= n,
            no_space(args@.subrange(0, i as int)),
        ensures
            i <= n,
            no_space(args@.subrange(0, i as int)),
            i == n || args@[i as int] == ' ',
        decreases n - i,
    {
        if args.get_char(i) == ' ' {
            break;
        }
        assert(args@.subrange(0, i as int + 1)[i as int] != ' ');
        assert(forall|j: int| 0 <= j < i ==> args@.subrange(0, i as int + 1)[j] == args@.subrange(0, i as int)[j]);
        i = i + 1;
    }
    if i == n {
        assert(args@.subrange(0, n as int) =~= args@);
        let empty = args.substring_char(0, 0);
        (empty, args)
    } else {
        let word = args.substring_char(0, i);
        let rest = args.substring_char(i + 1, n);
        assert(word@ + seq![' '] + rest@ =~= args@);
        (word, rest)
    }
}

pub open spec fn sep_at(s: Seq<char>, j: int) -> bool {
    0 <= j && j + 1 < s.len() && s[j] == ':' && s[j + 1] == ':'
}

/// The crate a log line comes from: the part of its target before the first
/// `::`, for lines that are not the tool's own.
pub fn dependency(target: &str) -> (r: Option<&str>)
    ensures
        is_prefix("cargo_leptos"@, target@) ==> r is None,
        !is_prefix("cargo_leptos"@, target@) && (forall|j: int| !sep_at(target@, j)) ==> r is None,
        r matches Some(e) ==> sep_at(target@, e@.len() as int) && e@ == target@.subrange(
            0,
            e@.len() as int,
        ) && forall|j: int| 0 <= j < e@.len() ==> !sep_at(target@, j),
{
    if starts_with(target, "cargo_leptos") {
        return None;
    }
    let n = target.unicode_len();
    let mut i: usize = 0;
    while i < n && i + 1 < n
        invariant
            n == target@.len(),
            i <= n,
            !is_prefix("cargo_leptos"@, target@),
            forall|j: int| 0 <= j < i ==> !sep_at(target@, j),
        decreases n - i,
    {
        if target.get_char(i) == ':' && target.get_char(i + 1) == ':' {
            let e = target.substring_char(0, i);
            assert(sep_at(target@, i as int));
            return Some(e);
        }
        i = i + 1;
    }
    assert forall|j: int| !sep_at(target@, j) by {
        if 0 <= j < i {
        }
    }
    None
}

} // verus!
