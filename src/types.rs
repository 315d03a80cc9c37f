use vstd::prelude::*;

verus! {

/// Largest accepted timestamp: 9999-12-31T23:59:59.999999999Z in nanoseconds.
pub const MAX_UNIX_TIMESTAMP_NANOS: u128 = 253_402_300_799_999_999_999;

/// A height of a counterparty chain, ordered lexicographically.
#[derive(Debug, Clone, Copy, PartialEq, Eq, Structural)]
pub struct Height {
    pub revision_number: u64,
    pub revision_height: u64,
}

/// An opaque 32-byte digest of a (client state, consensus state) pair.
#[derive(Debug, Clone, Copy, Eq)]
pub struct StateID(pub [u8; 32]);

/// A 20-byte identifier of an enclave key or an operator.
#[derive(Debug, Clone, Copy, Eq)]
pub struct Address(pub [u8; 20]);

/// Whether two byte arrays of the same length hold the same bytes.
fn bytes_eq<const N: usize>(a: &[u8; N], b: &[u8; N]) -> (r: bool)
    ensures
        r == (a@ == b@),
{
    let mut i: usize = 0;
    while i < N
        invariant
            0 <= i <= N,
            a@.len() == N,
            b@.len() == N,
            forall|j: int| 0 <= j < i ==> a@[j] == b@[j],
        decreases N - i,
    {
        if a[i] != b[i] {
            return false;
        }
        i = i + 1;
    }
    assert(a@ =~= b@);
    true
}

impl PartialEq for StateID {
    fn eq(&self, other: &StateID) -> (r: bool) {
        bytes_eq(&self.0, &other.0)
    }
}

impl vstd::std_specs::cmp::PartialEqSpecImpl for StateID {
    open spec fn obeys_eq_spec() -> bool {
        true
    }

    open spec fn eq_spec(&self, other: &StateID) -> bool {
        self.0@ == other.0@
    }
}

impl From<[u8; 32]> for StateID {
    fn from(bytes: [u8; 32]) -> (r: StateID) {
        StateID(bytes)
    }
}

impl vstd::std_specs::convert::FromSpecImpl<[u8; 32]> for StateID {
    open spec fn obeys_from_spec() -> bool {
        true
    }

    open spec fn from_spec(bytes: [u8; 32]) -> StateID {
        StateID(bytes)
    }
}

impl PartialEq for Address {
    fn eq(&self, other: &Address) -> (r: bool) {
        bytes_eq(&self.0, &other.0)
    }
}

impl vstd::std_specs::cmp::PartialEqSpecImpl for Address {
    open spec fn obeys_eq_spec() -> bool {
        true
    }

    open spec fn eq_spec(&self, other: &Address) -> bool {
        self.0@ == other.0@
    }
}

/// A point in time, in nanoseconds since the Unix epoch, never past
/// `MAX_UNIX_TIMESTAMP_NANOS`.
#[derive(Debug, Clone, Copy, PartialEq, Eq, Structural)]
pub struct Time {
    nanos: u128,
}

impl View for Time {
    type V = u128;

    closed spec fn view(&self) -> u128 {
        self.nanos
    }
}

impl Time {
    #[verifier::type_invariant]
    spec fn bounded(&self) -> bool {
        self.nanos <= MAX_UNIX_TIMESTAMP_NANOS
    }

    /// Makes a time from nanoseconds since the epoch; fails past the largest
    /// accepted timestamp.
    pub fn from_unix_timestamp_nanos(nanos: u128) -> (r: Result<Time, crate::error::Error>)
        ensures
            nanos <= MAX_UNIX_TIMESTAMP_NANOS ==> (r matches Ok(t) && t@ == nanos),
            nanos > MAX_UNIX_TIMESTAMP_NANOS ==> r == Err::<Time, _>(
                crate::error::Error::TimestampOutOfRange,
            ),
    {
        if nanos <= MAX_UNIX_TIMESTAMP_NANOS {
            Ok(Time { nanos })
        } else {
            Err(crate::error::Error::TimestampOutOfRange)
        }
    }

    pub fn as_unix_timestamp_nanos(&self) -> (r: u128)
        ensures
            r == self@,
            r <= MAX_UNIX_TIMESTAMP_NANOS,
    {
        proof {
            use_type_invariant(self);
        }
        self.nanos
    }
}

/// The identity of a light-client instance.
#[derive(Debug, Clone, PartialEq, Eq)]
pub struct ClientId(pub String);

/// A `(type_url, value)` envelope of a serialized object.
#[derive(Debug, Clone, PartialEq, Eq)]
pub struct Any {
    pub type_url: String,
    pub value: Vec<u8>,
}

impl Height {
    pub fn new(revision_number: u64, revision_height: u64) -> (r: Height)
        ensures
            r == (Height { revision_number, revision_height }),
    {
        Height { revision_number, revision_height }
    }

    pub open spec fn zero() -> Height {
        Height { revision_number: 0, revision_height: 0 }
    }

    /// Lexicographic order on (revision_number, revision_height).
    pub open spec fn spec_precedes(self, other: Height) -> bool {
        self.revision_number < other.revision_number || (self.revision_number
            == other.revision_number && self.revision_height < other.revision_height)
    }

    pub fn precedes(&self, other: &Height) -> (r: bool)
        ensures
            r == self.spec_precedes(*other),
    {
        self.revision_number < other.revision_number || (self.revision_number
            == other.revision_number && self.revision_height < other.revision_height)
    }
}

impl Any {
    pub fn new(type_url: String, value: Vec<u8>) -> (r: Any)
        ensures
            r.type_url@ == type_url@,
            r.value@ == value@,
    {
        Any { type_url, value }
    }
}

impl StateID {
    /// The all-zero state id, which stands for an absent one.
    pub open spec fn is_zero(self) -> bool {
        self.0@ == Seq::new(32, |i: int| 0u8)
    }

    pub fn zero() -> (r: StateID)
        ensures
            r.is_zero(),
    {
        let r = StateID([0u8; 32]);
        assert(r.0@ =~= Seq::new(32, |i: int| 0u8));
        r
    }

    pub fn from_bytes(bytes: [u8; 32]) -> (r: StateID)
        ensures
            r == StateID(bytes),
    {
        StateID(bytes)
    }
}

} // verus!
