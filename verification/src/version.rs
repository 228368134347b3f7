//! Semantic versions and version requirements: the backend's reported
//! version is parsed here and held against the configured constraint
//! before a connection handle may be produced.

use vstd::prelude::*;

verus! {

/// A semantic version. A reported version with fewer than three numeric
/// components is read with the missing components as zero.
#[derive(Debug, Clone, Copy, PartialEq, Eq, Structural)]
pub struct Version {
    pub major: u64,
    pub minor: u64,
    pub patch: u64,
}

/// The relation a single comparator demands between the backend's version
/// and the comparator's own.
#[derive(Debug, Clone, Copy, PartialEq, Eq, Structural)]
pub enum ComparatorOp {
    GreaterEq,
    Greater,
    LessEq,
    Less,
    Exact,
}

/// One clause of a version requirement, such as "at least 7.13.0".
#[derive(Debug, Clone, Copy, PartialEq, Eq, Structural)]
pub struct Comparator {
    pub op: ComparatorOp,
    pub version: Version,
}

/// A conjunction of comparators, such as "at least 7.0, below 8.0".
/// An empty requirement accepts every version.
#[derive(Debug, Clone, PartialEq)]
pub struct VersionRequirement {
    pub comparators: Vec<Comparator>,
}

/// Lexicographic order on (major, minor, patch).
pub open spec fn version_lt(a: Version, b: Version) -> bool {
    ||| a.major < b.major
    ||| (a.major == b.major && a.minor < b.minor)
    ||| (a.major == b.major && a.minor == b.minor && a.patch < b.patch)
}

/// Whether a version stands in the relation a comparator demands.
pub open spec fn comparator_holds(v: Version, c: Comparator) -> bool {
    match c.op {
        ComparatorOp::GreaterEq => !version_lt(v, c.version),
        ComparatorOp::Greater => version_lt(c.version, v),
        ComparatorOp::LessEq => !version_lt(c.version, v),
        ComparatorOp::Less => version_lt(v, c.version),
        ComparatorOp::Exact => v == c.version,
    }
}

/// Whether a version satisfies every comparator in a sequence.
pub open spec fn comparators_hold(v: Version, comparators: Seq<Comparator>) -> bool {
    forall|i: int| 0 <= i < comparators.len() ==> comparator_holds(v, #[trigger] comparators[i])
}

/// Whether a version satisfies every comparator of a requirement.
pub open spec fn requirement_holds(v: Version, req: VersionRequirement) -> bool {
    comparators_hold(v, req.comparators@)
}

impl Version {
    pub fn new(major: u64, minor: u64, patch: u64) -> (v: Version)
        ensures
            v == (Version { major, minor, patch }),
    {
        Version { major, minor, patch }
    }

    /// Strict lexicographic comparison on (major, minor, patch).
    pub fn lt(&self, other: &Version) -> (r: bool)
        ensures
            r == version_lt(*self, *other),
    {
        if self.major != other.major {
            self.major < other.major
        } else if self.minor != other.minor {
            self.minor < other.minor
        } else {
            self.patch < other.patch
        }
    }
}

impl Comparator {
    /// Whether the given version stands in the relation this comparator
    /// demands.
    pub fn holds_for(&self, v: &Version) -> (r: bool)
        ensures
            r == comparator_holds(*v, *self),
    {
        match self.op {
            ComparatorOp::GreaterEq => !v.lt(&self.version),
            ComparatorOp::Greater => self.version.lt(v),
            ComparatorOp::LessEq => !self.version.lt(v),
            ComparatorOp::Less => v.lt(&self.version),
            ComparatorOp::Exact => v.major == self.version.major && v.minor == self.version.minor
                && v.patch == self.version.patch,
        }
    }
}

impl VersionRequirement {
    /// Whether the given version satisfies every comparator of this
    /// requirement.
    pub fn matches(&self, v: &Version) -> (r: bool)
        ensures
            r == requirement_holds(*v, *self),
    {
        let n = self.comparators.len();
        let mut i: usize = 0;
        while i < n
            invariant
                n == self.comparators@.len(),
                i <= n,
                forall|j: int| 0 <= j < i ==> comparator_holds(*v, #[trigger] self.comparators@[j]),
            decreases n - i,
        {
            if !self.comparators[i].holds_for(v) {
                return false;
            }
            i = i + 1;
        }
        true
    }
}

/// The most digits a version component may have; any decimal number of
/// this length fits in a `u64`.
pub const MAX_COMPONENT_DIGITS: usize = 19;

/// Ten to the `n`th power.
pub open spec fn pow10(n: nat) -> nat
    decreases n,
{
    if n == 0 {
        1
    } else {
        10 * pow10((n - 1) as nat)
    }
}

proof fn lemma_pow10_19_fits()
    ensures
        pow10(MAX_COMPONENT_DIGITS as nat) <= u64::MAX,
{
    reveal_with_fuel(pow10, 20);
}

/// Whether a character is a decimal digit.
pub open spec fn is_ascii_digit(c: char) -> bool {
    '0' <= c && c <= '9'
}

/// The numeric value of a decimal digit character.
pub open spec fn digit_val(c: char) -> nat
    recommends
        is_ascii_digit(c),
{
    (c as u32 - '0' as u32) as nat
}

/// The state of the left-to-right scan that reads a version text: whether
/// the text so far is well formed, how many components a dot has closed,
/// the values of the closed components, and the length and value of the
/// component being read.
pub struct VersionScan {
    pub ok: bool,
    pub count: nat,
    pub len: nat,
    pub val: nat,
    pub first: nat,
    pub second: nat,
}

/// The scan state before any character has been read.
pub open spec fn scan_init() -> VersionScan {
    VersionScan { ok: true, count: 0, len: 0, val: 0, first: 0, second: 0 }
}

/// One character of the version grammar: a dot closes a non-empty
/// component (at most three components in all); a digit extends the
/// current component (at most `MAX_COMPONENT_DIGITS` digits); anything
/// else is malformed. A malformed text stays malformed.
pub open spec fn scan_step(st: VersionScan, c: char) -> VersionScan {
    if !st.ok {
        st
    } else if c == '.' {
        if st.len == 0 || st.count >= 2 {
            VersionScan { ok: false, ..st }
        } else if st.count == 0 {
            VersionScan { ok: true, count: 1, len: 0, val: 0, first: st.val, second: 0 }
        } else {
            VersionScan { count: 2, len: 0, val: 0, second: st.val, ..st }
        }
    } else if is_ascii_digit(c) {
        if st.len >= MAX_COMPONENT_DIGITS {
            VersionScan { ok: false, ..st }
        } else {
            VersionScan { len: st.len + 1, val: st.val * 10 + digit_val(c), ..st }
        }
    } else {
        VersionScan { ok: false, ..st }
    }
}

/// The scan state after reading a whole text.
pub open spec fn scan(t: Seq<char>) -> VersionScan
    decreases t.len(),
{
    if t.len() == 0 {
        scan_init()
    } else {
        scan_step(scan(t.drop_last()), t.last())
    }
}

/// A well-formed version text: one to three dot-separated components,
/// each one to `MAX_COMPONENT_DIGITS` decimal digits.
pub open spec fn version_text_ok(t: Seq<char>) -> bool {
    let st = scan(t);
    st.ok && st.len > 0
}

/// The version an accepting scan state denotes; absent components read
/// as zero.
pub open spec fn version_from_scan(st: VersionScan) -> Version {
    if st.count == 0 {
        Version { major: st.val as u64, minor: 0, patch: 0 }
    } else if st.count == 1 {
        Version { major: st.first as u64, minor: st.val as u64, patch: 0 }
    } else {
        Version { major: st.first as u64, minor: st.second as u64, patch: st.val as u64 }
    }
}

/// The version a well-formed text denotes; absent components read as
/// zero.
pub open spec fn version_of(t: Seq<char>) -> Version
    recommends
        version_text_ok(t),
{
    version_from_scan(scan(t))
}

/// Every reachable scan state keeps its component values below
/// `pow10(MAX_COMPONENT_DIGITS)`, so they fit in a `u64`.
pub open spec fn scan_bounded(st: VersionScan) -> bool {
    st.ok ==> {
        &&& st.val < pow10(st.len)
        &&& st.len <= MAX_COMPONENT_DIGITS
        &&& st.count <= 2
        &&& st.first < pow10(MAX_COMPONENT_DIGITS as nat)
        &&& st.second < pow10(MAX_COMPONENT_DIGITS as nat)
    }
}

proof fn lemma_pow10_positive(n: nat)
    ensures
        pow10(n) >= 1,
    decreases n,
{
    if n > 0 {
        lemma_pow10_positive((n - 1) as nat);
    }
}

proof fn lemma_pow10_increases(a: nat, b: nat)
    requires
        a <= b,
    ensures
        pow10(a) <= pow10(b),
    decreases b,
{
    if a < b {
        lemma_pow10_increases(a, (b - 1) as nat);
    }
}

proof fn lemma_scan_step_bounded(st: VersionScan, c: char)
    requires
        scan_bounded(st),
    ensures
        scan_bounded(scan_step(st, c)),
{
    if st.ok && c != '.' && is_ascii_digit(c) && st.len < MAX_COMPONENT_DIGITS {
        assert(pow10(st.len + 1) == 10 * pow10(st.len));
    }
    if st.ok && c == '.' && !(st.len == 0 || st.count >= 2) {
        lemma_pow10_increases(st.len, MAX_COMPONENT_DIGITS as nat);
    }
}

/// Reads a version text. Returns the version it denotes exactly when the
/// text is well formed (one to three dot-separated components of one to
/// `MAX_COMPONENT_DIGITS` decimal digits each), and nothing otherwise.
pub fn parse_version(s: &str) -> (r: Option<Version>)
    ensures
        version_text_ok(s@) ==> r == Some(version_of(s@)),
        !version_text_ok(s@) ==> r is None,
{
    let n = s.unicode_len();
    let mut ok = true;
    let mut count: usize = 0;
    let mut len: usize = 0;
    let mut val: u64 = 0;
    let mut first: u64 = 0;
    let mut second: u64 = 0;
    let mut i: usize = 0;
    proof {
        lemma_pow10_positive(MAX_COMPONENT_DIGITS as nat);
        assert(s@.subrange(0, 0) =~= Seq::<char>::empty());
    }
    while i < n
        invariant
            n == s@.len(),
            i <= n,
            scan_bounded(scan(s@.subrange(0, i as int))),
            ok == scan(s@.subrange(0, i as int)).ok,
            ok ==> {
                let st = scan(s@.subrange(0, i as int));
                &&& count == st.count
                &&& len == st.len
                &&& val == st.val
                &&& first == st.first
                &&& second == st.second
            },
        decreases n - i,
    {
        let c = s.get_char(i);
        proof {
            assert(s@.subrange(0, i + 1) =~= s@.subrange(0, i as int).push(s@[i as int]));
            assert(s@.subrange(0, i + 1).drop_last() =~= s@.subrange(0, i as int));
            lemma_scan_step_bounded(scan(s@.subrange(0, i as int)), s@[i as int]);
            lemma_pow10_19_fits();
        }
        if ok {
            if c == '.' {
                if len == 0 || count >= 2 {
                    ok = false;
                } else if count == 0 {
                    count = 1;
                    first = val;
                    second = 0;
                    len = 0;
                    val = 0;
                } else {
                    count = 2;
                    second = val;
                    len = 0;
                    val = 0;
                }
            } else if '0' <= c && c <= '9' {
                if len >= MAX_COMPONENT_DIGITS {
                    ok = false;
                } else {
                    proof {
                        assert(pow10((len + 1) as nat) == 10 * pow10(len as nat));
                        lemma_pow10_increases((len + 1) as nat, MAX_COMPONENT_DIGITS as nat);
                    }
                    val = val * 10 + ((c as u32 - '0' as u32) as u64);
                    len = len + 1;
                }
            } else {
                ok = false;
            }
        }
        i = i + 1;
    }
    proof {
        assert(s@.subrange(0, n as int) =~= s@);
    }
    if ok && len > 0 {
        if count == 0 {
            Some(Version { major: val, minor: 0, patch: 0 })
        } else if count == 1 {
            Some(Version { major: first, minor: val, patch: 0 })
        } else {
            Some(Version { major: first, minor: second, patch: val })
        }
    } else {
        None
    }
}

/// Where the requirement scan stands: before a comparator's operator
/// (spaces allowed), just after `>` or `<` (an `=` may still follow),
/// inside the comparator's version number, or after it (spaces allowed,
/// a comma starts the next comparator).
#[derive(Debug, Clone, Copy, PartialEq, Eq, Structural)]
pub enum ReqStage {
    Leading,
    AfterGt,
    AfterLt,
    Number,
    Trailing,
}

/// The state of the left-to-right scan that reads a requirement text:
/// whether the text so far is well formed, where it stands within the
/// current comparator, that comparator's operator, the version scan of
/// its number, and the comparators already completed.
pub struct ReqScan {
    pub ok: bool,
    pub stage: ReqStage,
    pub op: ComparatorOp,
    pub vscan: VersionScan,
    pub done: Seq<Comparator>,
}

/// The requirement scan state before any character has been read.
pub open spec fn req_scan_init() -> ReqScan {
    ReqScan {
        ok: true,
        stage: ReqStage::Leading,
        op: ComparatorOp::Exact,
        vscan: scan_init(),
        done: Seq::empty(),
    }
}

/// One character of the requirement grammar: comparators separated by
/// commas, each an operator (`>=`, `>`, `<=`, `<` or `=`) followed by a
/// version number, with spaces allowed before and after each
/// comparator. A malformed text stays malformed.
pub open spec fn req_scan_step(st: ReqScan, c: char) -> ReqScan {
    if !st.ok {
        st
    } else {
        match st.stage {
            ReqStage::Leading => {
                if c == ' ' {
                    st
                } else if c == '>' {
                    ReqScan { stage: ReqStage::AfterGt, ..st }
                } else if c == '<' {
                    ReqScan { stage: ReqStage::AfterLt, ..st }
                } else if c == '=' {
                    ReqScan {
                        stage: ReqStage::Number,
                        op: ComparatorOp::Exact,
                        vscan: scan_init(),
                        ..st
                    }
                } else {
                    ReqScan { ok: false, ..st }
                }
            },
            ReqStage::AfterGt => {
                if c == '=' {
                    ReqScan {
                        stage: ReqStage::Number,
                        op: ComparatorOp::GreaterEq,
                        vscan: scan_init(),
                        ..st
                    }
                } else {
                    let vs = scan_step(scan_init(), c);
                    if vs.ok {
                        ReqScan { stage: ReqStage::Number, op: ComparatorOp::Greater, vscan: vs, ..st }
                    } else {
                        ReqScan { ok: false, ..st }
                    }
                }
            },
            ReqStage::AfterLt => {
                if c == '=' {
                    ReqScan {
                        stage: ReqStage::Number,
                        op: ComparatorOp::LessEq,
                        vscan: scan_init(),
                        ..st
                    }
                } else {
                    let vs = scan_step(scan_init(), c);
                    if vs.ok {
                        ReqScan { stage: ReqStage::Number, op: ComparatorOp::Less, vscan: vs, ..st }
                    } else {
                        ReqScan { ok: false, ..st }
                    }
                }
            },
            ReqStage::Number => {
                if c == ',' || c == ' ' {
                    if st.vscan.ok && st.vscan.len > 0 {
                        ReqScan {
                            stage: if c == ',' {
                                ReqStage::Leading
                            } else {
                                ReqStage::Trailing
                            },
                            vscan: scan_init(),
                            done: st.done.push(
                                Comparator { op: st.op, version: version_from_scan(st.vscan) },
                            ),
                            ..st
                        }
                    } else {
                        ReqScan { ok: false, ..st }
                    }
                } else {
                    let vs = scan_step(st.vscan, c);
                    if vs.ok {
                        ReqScan { vscan: vs, ..st }
                    } else {
                        ReqScan { ok: false, ..st }
                    }
                }
            },
            ReqStage::Trailing => {
                if c == ' ' {
                    st
                } else if c == ',' {
                    ReqScan { stage: ReqStage::Leading, ..st }
                } else {
                    ReqScan { ok: false, ..st }
                }
            },
        }
    }
}

/// The requirement scan state after reading a whole text.
pub open spec fn req_scan(t: Seq<char>) -> ReqScan
    decreases t.len(),
{
    if t.len() == 0 {
        req_scan_init()
    } else {
        req_scan_step(req_scan(t.drop_last()), t.last())
    }
}

/// A well-formed requirement text: one or more comma-separated
/// comparators, each ending the text either inside a finished version
/// number or in the spaces after one.
pub open spec fn requirement_text_ok(t: Seq<char>) -> bool {
    let st = req_scan(t);
    st.ok && (st.stage is Trailing || (st.stage is Number && st.vscan.ok && st.vscan.len > 0))
}

/// The comparators a well-formed requirement text denotes, in the order
/// written.
pub open spec fn requirement_of(t: Seq<char>) -> Seq<Comparator> {
    let st = req_scan(t);
    if st.stage is Number {
        st.done.push(Comparator { op: st.op, version: version_from_scan(st.vscan) })
    } else {
        st.done
    }
}

/// Reads a requirement text. Returns the comparators it denotes exactly
/// when the text is well formed, and nothing otherwise.
pub fn parse_requirement(s: &str) -> (r: Option<VersionRequirement>)
    ensures
        requirement_text_ok(s@) ==> r is Some && r->0.comparators@ == requirement_of(s@),
        !requirement_text_ok(s@) ==> r is None,
{
    let n = s.unicode_len();
    let mut ok = true;
    let mut stage = ReqStage::Leading;
    let mut op = ComparatorOp::Exact;
    let mut count: usize = 0;
    let mut len: usize = 0;
    let mut val: u64 = 0;
    let mut first: u64 = 0;
    let mut second: u64 = 0;
    let mut comps: Vec<Comparator> = Vec::new();
    let mut i: usize = 0;
    proof {
        lemma_pow10_positive(MAX_COMPONENT_DIGITS as nat);
        assert(s@.subrange(0, 0) =~= Seq::<char>::empty());
    }
    while i < n
        invariant
            n == s@.len(),
            i <= n,
            ok == req_scan(s@.subrange(0, i as int)).ok,
            ok ==> {
                let st = req_scan(s@.subrange(0, i as int));
                &&& stage == st.stage
                &&& op == st.op
                &&& count == st.vscan.count
                &&& len == st.vscan.len
                &&& val == st.vscan.val
                &&& first == st.vscan.first
                &&& second == st.vscan.second
                &&& comps@ == st.done
                &&& st.vscan.ok
                &&& scan_bounded(st.vscan)
            },
        decreases n - i,
    {
        let c = s.get_char(i);
        proof {
            assert(s@.subrange(0, i + 1) =~= s@.subrange(0, i as int).push(s@[i as int]));
            assert(s@.subrange(0, i + 1).drop_last() =~= s@.subrange(0, i as int));
            lemma_pow10_positive(MAX_COMPONENT_DIGITS as nat);
            lemma_pow10_19_fits();
            if ok {
                lemma_scan_step_bounded(req_scan(s@.subrange(0, i as int)).vscan, s@[i as int]);
                lemma_scan_step_bounded(scan_init(), s@[i as int]);
            }
        }
        if ok {
            match stage {
                ReqStage::Leading => {
                    if c == ' ' {
                    } else if c == '>' {
                        stage = ReqStage::AfterGt;
                    } else if c == '<' {
                        stage = ReqStage::AfterLt;
                    } else if c == '=' {
                        stage = ReqStage::Number;
                        op = ComparatorOp::Exact;
                        count = 0;
                        len = 0;
                        val = 0;
                        first = 0;
                        second = 0;
                    } else {
                        ok = false;
                    }
                },
                ReqStage::AfterGt => {
                    if c == '=' {
                        stage = ReqStage::Number;
                        op = ComparatorOp::GreaterEq;
                        count = 0;
                        len = 0;
                        val = 0;
                        first = 0;
                        second = 0;
                    } else if '0' <= c && c <= '9' {
                        stage = ReqStage::Number;
                        op = ComparatorOp::Greater;
                        count = 0;
                        len = 1;
                        val = (c as u32 - '0' as u32) as u64;
                        first = 0;
                        second = 0;
                    } else {
                        ok = false;
                    }
                },
                ReqStage::AfterLt => {
                    if c == '=' {
                        stage = ReqStage::Number;
                        op = ComparatorOp::LessEq;
                        count = 0;
                        len = 0;
                        val = 0;
                        first = 0;
                        second = 0;
                    } else if '0' <= c && c <= '9' {
                        stage = ReqStage::Number;
                        op = ComparatorOp::Less;
                        count = 0;
                        len = 1;
                        val = (c as u32 - '0' as u32) as u64;
                        first = 0;
                        second = 0;
                    } else {
                        ok = false;
                    }
                },
                ReqStage::Number => {
                    if c == ',' || c == ' ' {
                        if len > 0 {
                            let version = if count == 0 {
                                Version { major: val, minor: 0, patch: 0 }
                            } else if count == 1 {
                                Version { major: first, minor: val, patch: 0 }
                            } else {
                                Version { major: first, minor: second, patch: val }
                            };
                            comps.push(Comparator { op, version });
                            stage = if c == ',' {
                                ReqStage::Leading
                            } else {
                                ReqStage::Trailing
                            };
                            count = 0;
                            len = 0;
                            val = 0;
                            first = 0;
                            second = 0;
                        } else {
                            ok = false;
                        }
                    } else if c == '.' {
                        if len == 0 || count >= 2 {
                            ok = false;
                        } else if count == 0 {
                            count = 1;
                            first = val;
                            second = 0;
                            len = 0;
                            val = 0;
                        } else {
                            count = 2;
                            second = val;
                            len = 0;
                            val = 0;
                        }
                    } else if '0' <= c && c <= '9' {
                        if len >= MAX_COMPONENT_DIGITS {
                            ok = false;
                        } else {
                            proof {
                                assert(pow10((len + 1) as nat) == 10 * pow10(len as nat));
                                lemma_pow10_increases(
                                    (len + 1) as nat,
                                    MAX_COMPONENT_DIGITS as nat,
                                );
                            }
                            val = val * 10 + ((c as u32 - '0' as u32) as u64);
                            len = len + 1;
                        }
                    } else {
                        ok = false;
                    }
                },
                ReqStage::Trailing => {
                    if c == ' ' {
                    } else if c == ',' {
                        stage = ReqStage::Leading;
                    } else {
                        ok = false;
                    }
                },
            }
        }
        i = i + 1;
    }
    proof {
        assert(s@.subrange(0, n as int) =~= s@);
    }
    if ok {
        match stage {
            ReqStage::Number => {
                if len > 0 {
                    let version = if count == 0 {
                        Version { major: val, minor: 0, patch: 0 }
                    } else if count == 1 {
                        Version { major: first, minor: val, patch: 0 }
                    } else {
                        Version { major: first, minor: second, patch: val }
                    };
                    comps.push(Comparator { op, version });
                    Some(VersionRequirement { comparators: comps })
                } else {
                    None
                }
            },
            ReqStage::Trailing => Some(VersionRequirement { comparators: comps }),
            _ => None,
        }
    } else {
        None
    }
}

} // verus!
