use vstd::prelude::*;

verus! {

/// The sixteen lower-case hexadecimal digits, by value.
pub open spec fn hex_char(d: nat) -> char {
    seq!['0', '1', '2', '3', '4', '5', '6', '7', '8', '9', 'a', 'b', 'c', 'd', 'e', 'f'][(
    d % 16) as int]
}

/// The `n` least significant hexadecimal digits of `v`, most significant first.
pub open spec fn hex_digits(v: nat, n: nat) -> Seq<char>
    decreases n,
{
    if n == 0 {
        Seq::empty()
    } else {
        hex_digits(v / 16, (n - 1) as nat).push(hex_char(v % 16))
    }
}

/// A twelve-byte document identifier, held as its first four bytes and its
/// last eight bytes, each read big-endian.
#[derive(Clone, Copy, Debug, PartialEq, Eq, Structural, Hash)]
pub struct ObjectId {
    pub high: u32,
    pub low: u64,
}

/// Relies on bson's `ObjectId::from_bytes` and `ObjectId::to_hex`: the twelve
/// bytes written as twenty-four lower-case hexadecimal digits.
#[verifier::external_body]
fn object_id_hex(high: u32, low: u64) -> (r: String)
    ensures
        r@ == hex_digits(high as nat, 8) + hex_digits(low as nat, 16),
{
    let mut bytes = [0u8; 12];
    bytes[..4].copy_from_slice(&high.to_be_bytes());
    bytes[4..].copy_from_slice(&low.to_be_bytes());
    bson::oid::ObjectId::from_bytes(bytes).to_hex()
}

/// A hexadecimal digit, in either case.
pub open spec fn is_hex_digit(c: char) -> bool {
    ('0' <= c <= '9') || ('a' <= c <= 'f') || ('A' <= c <= 'F')
}

pub open spec fn digit_value(c: char) -> nat {
    if '0' <= c <= '9' {
        (c as u32 - '0' as u32) as nat
    } else if 'a' <= c <= 'f' {
        (c as u32 - 'a' as u32 + 10) as nat
    } else {
        (c as u32 - 'A' as u32 + 10) as nat
    }
}

/// The number that the hexadecimal digits `s` write, most significant first.
pub open spec fn hex_number(s: Seq<char>) -> nat
    decreases s.len(),
{
    if s.len() == 0 {
        0
    } else {
        hex_number(s.drop_last()) * 16 + digit_value(s.last())
    }
}

/// Text that names an identifier: twenty-four hexadecimal digits.
pub open spec fn is_object_id_text(s: Seq<char>) -> bool {
    s.len() == 24 && forall|i: int| 0 <= i < 24 ==> is_hex_digit(#[trigger] s[i])
}

/// Relies on bson's `ObjectId::parse_str`: it accepts exactly twenty-four
/// hexadecimal digits of either case, and reads them as the twelve bytes.
#[verifier::external_body]
pub(crate) fn parse_object_id(s: &str) -> (r: Option<ObjectId>)
    ensures
        r is Some <==> is_object_id_text(s@),
        r matches Some(id) ==> id.high == hex_number(s@.subrange(0, 8)) && id.low == hex_number(
            s@.subrange(8, 24),
        ),
{
    let bytes = bson::oid::ObjectId::parse_str(s).ok()?.bytes();
    let mut high = [0u8; 4];
    let mut low = [0u8; 8];
    high.copy_from_slice(&bytes[..4]);
    low.copy_from_slice(&bytes[4..]);
    Some(ObjectId { high: u32::from_be_bytes(high), low: u64::from_be_bytes(low) })
}

impl ObjectId {
    /// The identifier's canonical text: twenty-four hexadecimal digits.
    pub open spec fn hex(self) -> Seq<char> {
        hex_digits(self.high as nat, 8) + hex_digits(self.low as nat, 16)
    }

    pub fn new(high: u32, low: u64) -> (r: ObjectId)
        ensures
            r.high == high,
            r.low == low,
    {
        ObjectId { high, low }
    }

    pub open spec fn spec_key(&self) -> (u32, u64) {
        (self.high, self.low)
    }

    /// The identifier as a pair of integers, the form in which rooms are keyed.
    #[verifier::when_used_as_spec(spec_key)]
    pub fn key(&self) -> (r: (u32, u64))
        ensures
            r == self.spec_key(),
    {
        (self.high, self.low)
    }

    pub fn to_hex(&self) -> (r: String)
        ensures
            r@ == self.hex(),
    {
        object_id_hex(self.high, self.low)
    }
}

/// What a voter identity denotes: the account it names, or the characters of
/// its anonymous session.
pub enum VoterView {
    Registered(ObjectId),
    Anonymous(Seq<char>),
}

/// Who cast a vote or joined a tournament.
#[derive(Clone, Debug)]
pub enum VoterId {
    Registered(ObjectId),
    Anonymous(String),
}

impl View for VoterId {
    type V = VoterView;

    open spec fn view(&self) -> VoterView {
        match self {
            VoterId::Registered(id) => VoterView::Registered(*id),
            VoterId::Anonymous(s) => VoterView::Anonymous(s@),
        }
    }
}

impl PartialEq for VoterId {
    fn eq(&self, other: &VoterId) -> (r: bool) {
        match (self, other) {
            (VoterId::Registered(a), VoterId::Registered(b)) => *a == *b,
            (VoterId::Anonymous(a), VoterId::Anonymous(b)) => *a == *b,
            _ => false,
        }
    }
}

impl vstd::std_specs::cmp::PartialEqSpecImpl for VoterId {
    open spec fn obeys_eq_spec() -> bool {
        true
    }

    open spec fn eq_spec(&self, other: &VoterId) -> bool {
        self@ == other@
    }
}

impl VoterId {
    /// A copy of this identity.
    pub fn duplicate(&self) -> (r: VoterId)
        ensures
            r@ == self@,
    {
        match self {
            VoterId::Registered(id) => VoterId::Registered(*id),
            VoterId::Anonymous(s) => VoterId::Anonymous(s.clone()),
        }
    }

    /// The text form: the account id in hexadecimal, or the session string.
    pub fn as_string(&self) -> (r: String)
        ensures
            r@ == match self@ {
                VoterView::Registered(id) => id.hex(),
                VoterView::Anonymous(s) => s,
            },
    {
        match self {
            VoterId::Registered(id) => id.to_hex(),
            VoterId::Anonymous(s) => s.clone(),
        }
    }

    pub fn is_anonymous(&self) -> (r: bool)
        ensures
            r == (self@ is Anonymous),
    {
        match self {
            VoterId::Registered(_) => false,
            VoterId::Anonymous(_) => true,
        }
    }
}

} // verus!
