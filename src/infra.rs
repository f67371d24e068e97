//! The infrastructure row: its content version and the version its derived
//! data was generated from.
use vstd::prelude::*;

verus! {

/// The document format version that imports must declare.
pub const RAILJSON_VERSION: &'static str = "3.2.0";

/// Errors of the infrastructure operations.
#[derive(Clone, Debug, PartialEq, Eq)]
pub enum InfraError {
    /// The imported document declares a format version other than the supported one.
    FormatVersionMismatch { found: String },
    /// The store refused a write on a uniqueness or foreign-key constraint.
    ConstraintViolation,
    /// No infrastructure has this identifier.
    NotFound { infra_id: i64 },
    /// A stored value breaks an invariant, such as a version that is not an
    /// integer, or one that cannot grow further.
    ConsistencyCorruption,
    /// The computation of derived data failed.
    ComputeFailure,
    /// No store connection could be had in time.
    ConnectionExhausted,
}

impl InfraError {
    /// A copy of the error.
    pub fn duplicate(&self) -> (r: InfraError)
        ensures
            r == *self,
    {
        match self {
            InfraError::FormatVersionMismatch { found } => InfraError::FormatVersionMismatch {
                found: found.clone(),
            },
            InfraError::ConstraintViolation => InfraError::ConstraintViolation,
            InfraError::NotFound { infra_id } => InfraError::NotFound { infra_id: *infra_id },
            InfraError::ConsistencyCorruption => InfraError::ConsistencyCorruption,
            InfraError::ComputeFailure => InfraError::ComputeFailure,
            InfraError::ConnectionExhausted => InfraError::ConnectionExhausted,
        }
    }
}

/// An infrastructure as stored.
///
/// The owner is the 128-bit value of its UUID; timestamps are microseconds
/// since the Unix epoch.
#[derive(Debug)]
pub struct Infra {
    pub id: Option<i64>,
    pub name: Option<String>,
    pub railjson_version: String,
    pub owner: Option<u128>,
    pub version: String,
    /// `None`: never generated; `Some(None)`: cleared; `Some(Some(v))`:
    /// derived data generated from content version `v`.
    pub generated_version: Option<Option<String>>,
    pub locked: bool,
    pub created: Option<i64>,
    pub modified: i64,
}

/// The value of an infrastructure, with text as character sequences.
pub struct InfraModel {
    pub id: Option<i64>,
    pub name: Option<Seq<char>>,
    pub railjson_version: Seq<char>,
    pub owner: Option<u128>,
    pub version: Seq<char>,
    pub generated_version: Option<Option<Seq<char>>>,
    pub locked: bool,
    pub created: Option<i64>,
    pub modified: i64,
}

pub open spec fn text_view(t: Option<String>) -> Option<Seq<char>> {
    match t {
        Some(s) => Some(s@),
        None => None,
    }
}

pub open spec fn generated_view(g: Option<Option<String>>) -> Option<Option<Seq<char>>> {
    match g {
        Some(inner) => Some(text_view(inner)),
        None => None,
    }
}

impl View for Infra {
    type V = InfraModel;

    open spec fn view(&self) -> InfraModel {
        InfraModel {
            id: self.id,
            name: text_view(self.name),
            railjson_version: self.railjson_version@,
            owner: self.owner,
            version: self.version@,
            generated_version: generated_view(self.generated_version),
            locked: self.locked,
            created: self.created,
            modified: self.modified,
        }
    }
}

/// Derived data is up to date: generated from the current content version.
pub open spec fn is_fresh(m: InfraModel) -> bool {
    m.generated_version == Some(Some(m.version))
}

pub open spec fn is_digit(c: char) -> bool {
    '0' <= c <= '9'
}

pub open spec fn digit_value(c: char) -> nat {
    (c as nat - '0' as nat) as nat
}

pub open spec fn digit_char(d: nat) -> char
    recommends
        d < 10,
{
    (d + '0' as nat) as char
}

/// A non-empty string of decimal digits.
pub open spec fn is_decimal(s: Seq<char>) -> bool {
    s.len() > 0 && forall|i: int| 0 <= i < s.len() ==> is_digit(#[trigger] s[i])
}

/// The integer that a string of decimal digits writes.
pub open spec fn decimal_value(s: Seq<char>) -> nat
    decreases s.len(),
{
    if s.len() == 0 {
        0
    } else {
        decimal_value(s.drop_last()) * 10 + digit_value(s.last())
    }
}

/// `n` in decimal digits, without leading zeros.
pub open spec fn decimal_text(n: nat) -> Seq<char>
    decreases n,
{
    if n < 10 {
        seq![digit_char(n)]
    } else {
        decimal_text(n / 10).push(digit_char(n % 10))
    }
}

/// The value of a prefix of a string of digits is at most that of the string.
proof fn lemma_prefix_value_le(s: Seq<char>, i: int)
    requires
        0 <= i <= s.len(),
    ensures
        decimal_value(s.subrange(0, i)) <= decimal_value(s),
    decreases s.len() - i,
{
    if i < s.len() {
        lemma_prefix_value_le(s, i + 1);
        assert(s.subrange(0, i + 1).drop_last() =~= s.subrange(0, i));
    } else {
        assert(s.subrange(0, i) =~= s);
    }
}

/// Decimal text reads back as the integer it writes, and holds no sign.
pub proof fn lemma_decimal_round_trip(n: nat)
    ensures
        is_decimal(decimal_text(n)),
        decimal_value(decimal_text(n)) == n,
        version_digits(decimal_text(n)) == decimal_text(n),
    decreases n,
{
    if n >= 10 {
        lemma_decimal_round_trip(n / 10);
        assert(decimal_text(n).drop_last() =~= decimal_text(n / 10));
        assert(digit_value(digit_char(n % 10)) == n % 10);
        let t = decimal_text(n);
        assert(decimal_value(t) == decimal_value(t.drop_last()) * 10 + digit_value(t.last()));
    } else {
        assert(decimal_text(n).drop_last() =~= Seq::<char>::empty());
        assert(digit_value(digit_char(n)) == n);
        assert(decimal_value(Seq::<char>::empty()) == 0);
    }
    assert(is_digit(decimal_text(n)[0]));
}

/// The one-character text of a decimal digit.
fn digit_text(d: u64) -> (r: &'static str)
    requires
        d < 10,
    ensures
        r@ == seq![digit_char(d as nat)],
{
    proof {
        reveal_strlit("0");
        reveal_strlit("1");
        reveal_strlit("2");
        reveal_strlit("3");
        reveal_strlit("4");
        reveal_strlit("5");
        reveal_strlit("6");
        reveal_strlit("7");
        reveal_strlit("8");
        reveal_strlit("9");
    }
    let r = match d {
        0 => "0",
        1 => "1",
        2 => "2",
        3 => "3",
        4 => "4",
        5 => "5",
        6 => "6",
        7 => "7",
        8 => "8",
        _ => "9",
    };
    proof {
        assert(r@ =~= seq![digit_char(d as nat)]);
    }
    r
}

/// `n` written in decimal digits.
fn decimal_string(n: u64) -> (r: String)
    ensures
        r@ == decimal_text(n as nat),
{
    let mut rest = n;
    let mut text = String::new();
    loop
        invariant
            rest > 0 || (n == 0 && text@.len() == 0),
            decimal_text(n as nat) == decimal_text(rest as nat) + text@,
        decreases rest,
    {
        let digit = digit_text(rest % 10);
        let ghost before = text@;
        text = String::from_str(digit).concat(text.as_str());
        proof {
            if rest >= 10 {
                assert(decimal_text(rest as nat) == decimal_text((rest / 10) as nat).push(
                    digit_char((rest % 10) as nat),
                ));
                assert(decimal_text(rest as nat) + before =~= decimal_text((rest / 10) as nat)
                    + text@);
            } else {
                assert(decimal_text(rest as nat) =~= seq![digit_char(rest as nat)]);
                assert(decimal_text(n as nat) =~= text@);
            }
        }
        rest = rest / 10;
        if rest == 0 {
            return text;
        }
    }
}

/// The digits of a content version: its text without one optional leading `+`.
pub open spec fn version_digits(s: Seq<char>) -> Seq<char> {
    if s.len() > 0 && s[0] == '+' {
        s.drop_first()
    } else {
        s
    }
}

/// A content version: decimal digits, after one optional leading `+`.
pub open spec fn is_version(s: Seq<char>) -> bool {
    is_decimal(version_digits(s))
}

/// The integer a content version writes.
pub open spec fn version_value(s: Seq<char>) -> nat {
    decimal_value(version_digits(s))
}

/// Reads a content version: a non-empty string of decimal digits, after one
/// optional leading `+`, whose value fits in `u64`.
pub fn parse_version(s: &str) -> (r: Option<u64>)
    ensures
        r is Some <==> is_version(s@) && version_value(s@) <= u64::MAX,
        r matches Some(v) ==> v == version_value(s@),
{
    let n = s.unicode_len();
    let start: usize = if n > 0 && s.get_char(0) == '+' {
        1
    } else {
        0
    };
    proof {
        assert(version_digits(s@) =~= s@.subrange(start as int, n as int));
    }
    if n == start {
        return None;
    }
    let mut acc: u64 = 0;
    let mut i: usize = start;
    while i < n
        invariant
            n == s@.len(),
            start <= i <= n,
            version_digits(s@) == s@.subrange(start as int, n as int),
            acc == decimal_value(s@.subrange(start as int, i as int)),
            forall|j: int| start <= j < i ==> is_digit(#[trigger] s@[j]),
        decreases n - i,
    {
        let c = s.get_char(i);
        proof {
            assert(s@.subrange(start as int, i + 1).drop_last() =~= s@.subrange(
                start as int,
                i as int,
            ));
        }
        if c < '0' || c > '9' {
            proof {
                assert(version_digits(s@)[i - start] == c);
            }
            return None;
        }
        let d = (c as u32 - '0' as u32) as u64;
        if acc > (u64::MAX - d) / 10 {
            proof {
                let digits = version_digits(s@);
                lemma_prefix_value_le(digits, i + 1 - start);
                assert(digits.subrange(0, i + 1 - start) =~= s@.subrange(start as int, i + 1));
            }
            return None;
        }
        acc = acc * 10 + d;
        i = i + 1;
    }
    proof {
        let digits = version_digits(s@);
        assert forall|j: int| 0 <= j < digits.len() implies is_digit(#[trigger] digits[j]) by {
            assert(digits[j] == s@[start + j]);
        }
    }
    Some(acc)
}

/// What `refresh` asks of the caller.
#[derive(Clone, Copy, Debug, PartialEq, Eq, Structural)]
pub enum RefreshAction {
    /// Derived data is up to date: nothing to compute, nothing refreshed.
    Skip,
    /// Compute derived data from the current content, then hand the outcome
    /// to `refresh_done` and store the row it gives.
    Compute,
}

/// The content version that follows `version`.
pub open spec fn next_version(version: Seq<char>) -> Seq<char> {
    decimal_text(version_value(version) + 1)
}

/// The content version after `k` bumps from `version`.
pub open spec fn version_after_bumps(version: Seq<char>, k: nat) -> Seq<char>
    decreases k,
{
    if k == 0 {
        version
    } else {
        next_version(version_after_bumps(version, (k - 1) as nat))
    }
}

/// Bumping `k` times from version `"0"` gives version `k`, in decimal: each
/// bump moves to the next integer, none is skipped and none repeated; every
/// intermediate version is again a decimal integer, so each bump before the
/// largest `u64` succeeds.
pub proof fn lemma_bumps_from_zero(k: nat)
    ensures
        version_after_bumps(decimal_text(0), k) == decimal_text(k),
        is_version(version_after_bumps(decimal_text(0), k)),
        version_value(version_after_bumps(decimal_text(0), k)) == k,
    decreases k,
{
    if k > 0 {
        lemma_bumps_from_zero((k - 1) as nat);
        lemma_decimal_round_trip((k - 1) as nat);
    }
    lemma_decimal_round_trip(k);
}

fn copy_text(t: &Option<String>) -> (r: Option<String>)
    ensures
        r == *t,
{
    match t {
        Some(s) => Some(s.clone()),
        None => None,
    }
}

fn copy_generated(g: &Option<Option<String>>) -> (r: Option<Option<String>>)
    ensures
        r == *g,
{
    match g {
        Some(inner) => Some(copy_text(inner)),
        None => None,
    }
}

impl Infra {
    /// A field-for-field copy of the row.
    pub fn duplicate(&self) -> (r: Infra)
        ensures
            r == *self,
    {
        Infra {
            id: self.id,
            name: copy_text(&self.name),
            railjson_version: self.railjson_version.clone(),
            owner: self.owner,
            version: self.version.clone(),
            generated_version: copy_generated(&self.generated_version),
            locked: self.locked,
            created: self.created,
            modified: self.modified,
        }
    }

    /// The row with its content version incremented by one, to be stored by
    /// the caller. Fails with `ConsistencyCorruption` when the stored version
    /// is not a decimal integer, or is the largest `u64`.
    pub fn bump_version(&self) -> (r: Result<Infra, InfraError>)
        ensures
            r is Ok <==> is_version(self@.version) && version_value(self@.version) < u64::MAX,
            r matches Ok(n) ==> n@ == (InfraModel { version: next_version(self@.version), ..self@ }),
            r is Err ==> r matches Err(InfraError::ConsistencyCorruption),
    {
        let current = match parse_version(self.version.as_str()) {
            Some(v) => v,
            None => return Err(InfraError::ConsistencyCorruption),
        };
        if current == u64::MAX {
            return Err(InfraError::ConsistencyCorruption);
        }
        let mut infra = self.duplicate();
        infra.version = decimal_string(current + 1);
        Ok(infra)
    }

    /// Whether derived data must be computed: always when `force`, else
    /// unless it was generated from the current content version.
    pub fn refresh(&self, force: bool) -> (r: RefreshAction)
        ensures
            r == RefreshAction::Skip <==> !force && is_fresh(self@),
    {
        if force {
            return RefreshAction::Compute;
        }
        match &self.generated_version {
            Some(Some(generated)) => {
                if *generated == self.version {
                    RefreshAction::Skip
                } else {
                    RefreshAction::Compute
                }
            },
            _ => RefreshAction::Compute,
        }
    }

    /// The row to store once derived data was computed: generated from the
    /// current content version. A failed computation leaves the row as it
    /// is and its error is handed back.
    pub fn refresh_done(&self, computed: Result<(), InfraError>) -> (r: Result<Infra, InfraError>)
        ensures
            r is Ok <==> computed is Ok,
            r matches Ok(n) ==> n@ == (InfraModel {
                generated_version: Some(Some(self@.version)),
                ..self@
            }),
            r matches Ok(n) ==> is_fresh(n@),
            computed matches Err(e) ==> r == Err::<Infra, InfraError>(e),
    {
        match computed {
            Ok(()) => {
                let mut infra = self.duplicate();
                infra.generated_version = Some(Some(self.version.clone()));
                Ok(infra)
            },
            Err(e) => Err(e),
        }
    }

    /// The row to store once the derived data of this infrastructure was
    /// dropped: marked cleared. A failed drop leaves the row as it is and its
    /// error is handed back.
    pub fn clear(&self, invalidated: Result<(), InfraError>) -> (r: Result<Infra, InfraError>)
        ensures
            r is Ok <==> invalidated is Ok,
            r matches Ok(n) ==> n@ == (InfraModel { generated_version: Some(None), ..self@ }),
            r matches Ok(n) ==> !is_fresh(n@),
            invalidated matches Err(e) ==> r == Err::<Infra, InfraError>(e),
    {
        match invalidated {
            Ok(()) => {
                let mut infra = self.duplicate();
                infra.generated_version = Some(None);
                Ok(infra)
            },
            Err(e) => Err(e),
        }
    }

    /// The row that copies the metadata of `source`, the infrastructure
    /// found under `source_id` (`None` when there is none), under the name
    /// `new_name`: same content version, generated version and lock, the
    /// freshly generated owner identity `owner`, the supported format
    /// version, created and modified at `now`. Its identifier is left for the
    /// store to assign; it is a single row, and no child object is copied.
    pub fn clone(
        source: Option<Infra>,
        source_id: i64,
        new_name: String,
        owner: u128,
        now: i64,
    ) -> (r: Result<Infra, InfraError>)
        ensures
            source is None <==> r is Err,
            r is Err ==> (r matches Err(InfraError::NotFound { infra_id }) && infra_id == source_id),
            source matches Some(s) ==> (r matches Ok(n) && n@ == (InfraModel {
                id: None,
                name: Some(new_name@),
                railjson_version: RAILJSON_VERSION@,
                owner: Some(owner),
                version: s@.version,
                generated_version: s@.generated_version,
                locked: s@.locked,
                created: Some(now),
                modified: now,
            })),
    {
        match source {
            None => Err(InfraError::NotFound { infra_id: source_id }),
            Some(s) => Ok(
                Infra {
                    id: None,
                    name: Some(new_name),
                    railjson_version: String::from_str(RAILJSON_VERSION),
                    owner: Some(owner),
                    version: s.version,
                    generated_version: s.generated_version,
                    locked: s.locked,
                    created: Some(now),
                    modified: now,
                },
            ),
        }
    }

    /// A new infrastructure to import: content version `"0"`, derived data
    /// never generated, unlocked, created and modified at `now`.
    pub fn new(name: String, owner: u128, now: i64) -> (r: Infra)
        ensures
            r@ == (InfraModel {
                id: None,
                name: Some(name@),
                railjson_version: RAILJSON_VERSION@,
                owner: Some(owner),
                version: decimal_text(0),
                generated_version: None,
                locked: false,
                created: Some(now),
                modified: now,
            }),
    {
        Infra {
            id: None,
            name: Some(name),
            railjson_version: String::from_str(RAILJSON_VERSION),
            owner: Some(owner),
            version: decimal_string(0),
            generated_version: None,
            locked: false,
            created: Some(now),
            modified: now,
        }
    }
}

} // verus!
