use vstd::prelude::*;

use crate::text::{chars_of, push_char};

verus! {

/// The error type for parsing MAC addresses.
#[derive(Debug, Clone, Copy, PartialEq, Eq, Structural)]
pub enum ParseMacAddressError {
    /// The text holds this many `:`-separated parts instead of six.
    InvalidLength(usize),
    /// One of the first six parts is not a hexadecimal octet.
    InvalidOctet,
}

// ---------------------------------------------------------------------------
// The text model: splitting at ':' and reading base-16 octets.
// ---------------------------------------------------------------------------

/// The parts of `s` between the `:` separators, as `str::split(':')` yields
/// them: always at least one part, empty parts included.
pub open spec fn split_colon(s: Seq<char>) -> Seq<Seq<char>>
    decreases s.len(),
{
    if s.len() == 0 {
        seq![Seq::<char>::empty()]
    } else {
        let prev = split_colon(s.drop_last());
        if s.last() == ':' {
            prev.push(Seq::<char>::empty())
        } else {
            prev.update(prev.len() - 1, prev.last().push(s.last()))
        }
    }
}

/// The value of a base-16 digit (`0-9`, `a-f`, `A-F`).
pub open spec fn hex_digit_value(c: char) -> Option<u8> {
    let u = c as u32;
    if 0x30 <= u <= 0x39 {
        Some((u - 0x30) as u8)
    } else if 0x61 <= u <= 0x66 {
        Some((u - 0x61 + 10) as u8)
    } else if 0x41 <= u <= 0x46 {
        Some((u - 0x41 + 10) as u8)
    } else {
        None
    }
}

/// Every character of `ds` is a base-16 digit.
pub open spec fn is_hex_digits(ds: Seq<char>) -> bool {
    forall|i: int| 0 <= i < ds.len() ==> (#[trigger] hex_digit_value(ds[i])) is Some
}

/// The number that the base-16 digits `ds` denote, most significant first.
pub open spec fn hex_digits_value(ds: Seq<char>) -> nat
    decreases ds.len(),
{
    if ds.len() == 0 {
        0
    } else {
        hex_digits_value(ds.drop_last()) * 16 + hex_digit_value(ds.last()).unwrap() as nat
    }
}

/// The digits of a part once an optional leading `+` is removed.
pub open spec fn unsigned_digits(part: Seq<char>) -> Seq<char> {
    if part.len() > 0 && part[0] == '+' {
        part.drop_first()
    } else {
        part
    }
}

/// The octet that a part denotes as an unsigned base-16 number (an optional
/// `+`, then at least one digit, and a value of at most 255), or `None`.
pub open spec fn parse_hex_octet(part: Seq<char>) -> Option<u8> {
    let ds = unsigned_digits(part);
    if ds.len() == 0 || !is_hex_digits(ds) || hex_digits_value(ds) > 255 {
        None
    } else {
        Some(hex_digits_value(ds) as u8)
    }
}

/// Parsing a MAC address: the octets it denotes, or the error.
///
/// The first of the first six parts that is no octet gives `InvalidOctet`;
/// otherwise a text of other than six parts gives `InvalidLength` with the
/// number of parts.
pub open spec fn parse_mac(s: Seq<char>) -> Result<Seq<u8>, ParseMacAddressError> {
    let parts = split_colon(s);
    if exists|i: int| 0 <= i < parts.len() && i < 6 && (#[trigger] parse_hex_octet(parts[i])) is None {
        Err(ParseMacAddressError::InvalidOctet)
    } else if parts.len() != 6 {
        Err(ParseMacAddressError::InvalidLength(parts.len() as usize))
    } else {
        Ok(Seq::new(6, |i: int| parse_hex_octet(parts[i]).unwrap()))
    }
}

// ---------------------------------------------------------------------------
// The text model: writing octets in base 16.
// ---------------------------------------------------------------------------

/// The lower-case base-16 digit for `n < 16`.
pub open spec fn hex_char_lower(n: u8) -> char {
    if n < 10 {
        (0x30 + n) as char
    } else {
        (0x61 + n - 10) as char
    }
}

/// The upper-case base-16 digit for `n < 16`.
pub open spec fn hex_char_upper(n: u8) -> char {
    if n < 10 {
        (0x30 + n) as char
    } else {
        (0x41 + n - 10) as char
    }
}

/// An octet as two lower-case base-16 digits (`{:02x}`).
pub open spec fn octet_lower(b: u8) -> Seq<char> {
    seq![hex_char_lower(b / 16), hex_char_lower(b % 16)]
}

/// An octet as two upper-case base-16 digits (`{:02X}`).
pub open spec fn octet_upper(b: u8) -> Seq<char> {
    seq![hex_char_upper(b / 16), hex_char_upper(b % 16)]
}

/// Six octets as `xx:xx:xx:xx:xx:xx`, in lower case.
pub open spec fn mac_text(o: Seq<u8>) -> Seq<char> {
    octet_lower(o[0]) + seq![':'] + octet_lower(o[1]) + seq![':'] + octet_lower(o[2]) + seq![':']
        + octet_lower(o[3]) + seq![':'] + octet_lower(o[4]) + seq![':'] + octet_lower(o[5])
}

/// Six octets as twelve lower-case base-16 digits.
pub open spec fn mac_lower_hex(o: Seq<u8>) -> Seq<char> {
    octet_lower(o[0]) + octet_lower(o[1]) + octet_lower(o[2]) + octet_lower(o[3]) + octet_lower(
        o[4],
    ) + octet_lower(o[5])
}

/// Six octets as twelve upper-case base-16 digits.
pub open spec fn mac_upper_hex(o: Seq<u8>) -> Seq<char> {
    octet_upper(o[0]) + octet_upper(o[1]) + octet_upper(o[2]) + octet_upper(o[3]) + octet_upper(
        o[4],
    ) + octet_upper(o[5])
}

// ---------------------------------------------------------------------------
// MacAddress
// ---------------------------------------------------------------------------

/// A six-octet MAC address.
#[derive(Copy, Clone, Debug, Eq, PartialOrd, Ord, Hash)]
pub struct MacAddress {
    octets: [u8; 6],
}

impl View for MacAddress {
    type V = Seq<u8>;

    /// The six octets, first to last.
    closed spec fn view(&self) -> Seq<u8> {
        self.octets@
    }
}

/// Every MAC address has six octets.
pub broadcast proof fn lemma_mac_len(m: MacAddress)
    ensures
        #[trigger] m@.len() == 6,
{
}

/// Two addresses with the same octets are the same address.
pub proof fn lemma_mac_view_injective(m: MacAddress, n: MacAddress)
    requires
        m@ == n@,
    ensures
        m == n,
{
    assert(m.octets =~= n.octets);
}

/// The broadcast address is a group (multicast) address and a locally
/// administered one; the all-zero address is neither.
pub proof fn law_broadcast_and_zero_bits(m: MacAddress)
    ensures
        m@ == seq![0xFFu8, 0xFF, 0xFF, 0xFF, 0xFF, 0xFF] ==> (m@[0] & 1u8 != 0) && (m@[0] & 2u8
            != 0),
        m@ == seq![0u8, 0, 0, 0, 0, 0] ==> (m@[0] & 1u8 == 0) && (m@[0] & 2u8 == 0),
{
    assert(0xFFu8 & 1u8 != 0 && 0xFFu8 & 2u8 != 0) by (bit_vector);
    assert(0u8 & 1u8 == 0 && 0u8 & 2u8 == 0) by (bit_vector);
}

impl PartialEq for MacAddress {
    fn eq(&self, other: &Self) -> (r: bool) {
        let r = self.octets[0] == other.octets[0] && self.octets[1] == other.octets[1]
            && self.octets[2] == other.octets[2] && self.octets[3] == other.octets[3]
            && self.octets[4] == other.octets[4] && self.octets[5] == other.octets[5];
        proof {
            if r {
                assert(self.octets@ =~= other.octets@);
            }
        }
        r
    }
}

impl vstd::std_specs::cmp::PartialEqSpecImpl for MacAddress {
    open spec fn obeys_eq_spec() -> bool {
        true
    }

    open spec fn eq_spec(&self, other: &MacAddress) -> bool {
        self@ == other@
    }
}

impl From<[u8; 6]> for MacAddress {
    /// The address with these octets.
    fn from(value: [u8; 6]) -> (m: Self)
        ensures
            m@ == value@,
    {
        MacAddress { octets: value }
    }
}

impl vstd::std_specs::convert::FromSpecImpl<[u8; 6]> for MacAddress {
    open spec fn obeys_from_spec() -> bool {
        true
    }

    /// The address with the octets `v`.
    closed spec fn from_spec(v: [u8; 6]) -> MacAddress {
        MacAddress { octets: v }
    }
}

impl Default for MacAddress {
    /// The all-zero address.
    fn default() -> (m: Self)
        ensures
            m@ == seq![0u8, 0u8, 0u8, 0u8, 0u8, 0u8],
    {
        MacAddress::zero()
    }
}

impl MacAddress {
    /// The broadcast address, `ff:ff:ff:ff:ff:ff`.
    pub fn broadcast() -> (m: MacAddress)
        ensures
            m@ == seq![0xFFu8, 0xFF, 0xFF, 0xFF, 0xFF, 0xFF],
    {
        let m = MacAddress { octets: [0xFF, 0xFF, 0xFF, 0xFF, 0xFF, 0xFF] };
        assert(m@ =~= seq![0xFFu8, 0xFF, 0xFF, 0xFF, 0xFF, 0xFF]);
        m
    }

    /// The address with every octet 0.
    pub fn zero() -> (m: MacAddress)
        ensures
            m@ == seq![0u8, 0, 0, 0, 0, 0],
    {
        let m = MacAddress { octets: [0, 0, 0, 0, 0, 0] };
        assert(m@ =~= seq![0u8, 0, 0, 0, 0, 0]);
        m
    }

    /// Construct a new MAC address from six octets.
    pub fn new(octets: [u8; 6]) -> (m: Self)
        ensures
            m@ == octets@,
    {
        MacAddress { octets }
    }

    /// Borrow the raw octet array.
    pub fn octets(&self) -> (o: &[u8; 6])
        ensures
            o@ == self@,
    {
        &self.octets
    }

    /// Consume the address into its raw octet array.
    pub fn into_array(self) -> (o: [u8; 6])
        ensures
            o@ == self@,
    {
        self.octets
    }

    /// Whether every octet is `0xFF`.
    pub fn is_broadcast(&self) -> (b: bool)
        ensures
            b == (self@ == seq![0xFFu8, 0xFF, 0xFF, 0xFF, 0xFF, 0xFF]),
    {
        *self == MacAddress::broadcast()
    }

    /// Whether every octet is zero.
    pub fn is_zero(&self) -> (b: bool)
        ensures
            b == (self@ == seq![0u8, 0, 0, 0, 0, 0]),
    {
        *self == MacAddress::zero()
    }

    /// Whether the group bit (the least significant bit of the first octet) is set.
    pub fn is_multicast(&self) -> (b: bool)
        ensures
            b == (self@[0] & 1u8 != 0),
    {
        (self.octets[0] & 0x01) != 0
    }

    /// Whether the group bit is clear.
    pub fn is_unicast(&self) -> (b: bool)
        ensures
            b == (self@[0] & 1u8 == 0),
    {
        !self.is_multicast()
    }

    /// Whether the locally-administered bit (bit 1 of the first octet) is set.
    pub fn is_local(&self) -> (b: bool)
        ensures
            b == (self@[0] & 2u8 != 0),
    {
        (self.octets[0] & 0x02) != 0
    }

    /// Whether the locally-administered bit is clear.
    pub fn is_universal(&self) -> (b: bool)
        ensures
            b == (self@[0] & 2u8 == 0),
    {
        !self.is_local()
    }
}


// ---------------------------------------------------------------------------
// Parsing
// ---------------------------------------------------------------------------

/// A split never yields zero parts.
pub proof fn lemma_split_colon_nonempty(s: Seq<char>)
    ensures
        split_colon(s).len() >= 1,
    decreases s.len(),
{
    if s.len() > 0 {
        lemma_split_colon_nonempty(s.drop_last());
    }
}

/// Adding digits never lowers the value of a digit string.
proof fn lemma_hex_value_prefix(ds: Seq<char>, k: int)
    requires
        0 <= k <= ds.len(),
    ensures
        hex_digits_value(ds.take(k)) <= hex_digits_value(ds),
    decreases ds.len() - k,
{
    if k < ds.len() {
        lemma_hex_value_prefix(ds, k + 1);
        assert(ds.take(k + 1).drop_last() =~= ds.take(k));
    } else {
        assert(ds.take(k) =~= ds);
    }
}

/// The value of one base-16 digit.
fn hex_digit(c: char) -> (r: Option<u8>)
    ensures
        r == hex_digit_value(c),
{
    let u = c as u32;
    if 0x30 <= u && u <= 0x39 {
        Some((u - 0x30) as u8)
    } else if 0x61 <= u && u <= 0x66 {
        Some((u - 0x61 + 10) as u8)
    } else if 0x41 <= u && u <= 0x46 {
        Some((u - 0x41 + 10) as u8)
    } else {
        None
    }
}

/// Reads one part as an unsigned base-16 octet, as `u8::from_str_radix(part, 16)` does.
fn parse_octet(part: &Vec<char>) -> (r: Option<u8>)
    ensures
        r == parse_hex_octet(part@),
{
    let n = part.len();
    let mut start: usize = 0;
    if n > 0 && part[0] == '+' {
        start = 1;
    }
    let ghost ds = unsigned_digits(part@);
    assert(ds =~= part@.subrange(start as int, n as int));
    if start == n {
        return None;
    }
    let mut v: u32 = 0;
    let mut j: usize = start;
    while j < n
        invariant
            start <= j <= n,
            n == part@.len(),
            ds =~= part@.subrange(start as int, n as int),
            ds == unsigned_digits(part@),
            v <= 255,
            v == hex_digits_value(ds.take(j - start)),
            is_hex_digits(ds.take(j - start)),
        decreases n - j,
    {
        let ghost k: int = j - start;
        assert(ds.take(k + 1).drop_last() =~= ds.take(k));
        assert(ds.take(k + 1).last() == part@[j as int]);
        match hex_digit(part[j]) {
            None => {
                assert(ds[k] == part@[j as int]);
                assert(hex_digit_value(ds[k]) is None);
                assert(!is_hex_digits(ds));
                return None;
            },
            Some(d) => {
                v = v * 16 + d as u32;
                if v > 255 {
                    proof {
                        assert(hex_digits_value(ds.take(k + 1)) == hex_digits_value(ds.take(k)) * 16
                            + d);
                        lemma_hex_value_prefix(ds, k + 1);
                    }
                    return None;
                }
            },
        }
        j = j + 1;
        assert forall|i: int| 0 <= i < ds.take(j - start).len() implies (#[trigger] hex_digit_value(
            ds.take(j - start)[i],
        )) is Some by {
            if i < k {
                assert(ds.take(j - start)[i] == ds.take(k)[i]);
            }
        }
    }
    assert(ds.take(n - start) =~= ds);
    Some(v as u8)
}

/// Splits characters at every `:`, as `str::split(':')` does.
fn split_parts(chars: &Vec<char>) -> (parts: Vec<Vec<char>>)
    ensures
        parts.deep_view() == split_colon(chars@),
{
    let mut done: Vec<Vec<char>> = Vec::new();
    let mut cur: Vec<char> = Vec::new();
    let n = chars.len();
    let mut i: usize = 0;
    assert(chars@.take(0) =~= Seq::<char>::empty());
    assert(done.deep_view().push(cur@) =~= split_colon(chars@.take(0)));
    while i < n
        invariant
            i <= n,
            n == chars@.len(),
            done.deep_view().push(cur@) == split_colon(chars@.take(i as int)),
        decreases n - i,
    {
        let c = chars[i];
        let ghost prev = split_colon(chars@.take(i as int));
        assert(chars@.take(i + 1).drop_last() =~= chars@.take(i as int));
        assert(chars@.take(i + 1).last() == c);
        let ghost old_done = done.deep_view();
        if c == ':' {
            let ghost old_cur = cur@;
            assert(cur.deep_view() =~= old_cur);
            done.push(cur);
            cur = Vec::new();
            assert(done.deep_view() =~= old_done.push(old_cur));
            assert(done.deep_view().push(cur@) =~= prev.push(Seq::<char>::empty()));
        } else {
            cur.push(c);
            assert(done.deep_view().push(cur@) =~= prev.update(prev.len() - 1, prev.last().push(c)));
        }
        i = i + 1;
    }
    assert(chars@.take(n as int) =~= chars@);
    let ghost old_done = done.deep_view();
    let ghost old_cur = cur@;
    assert(cur.deep_view() =~= old_cur);
    done.push(cur);
    assert(done.deep_view() =~= old_done.push(old_cur));
    done
}

impl MacAddress {
    /// Parses `xx:xx:xx:xx:xx:xx`, where each part is an unsigned base-16
    /// number of at most 255, in either case.
    pub fn from_str(s: &str) -> (r: Result<MacAddress, ParseMacAddressError>)
        ensures
            r is Ok <==> parse_mac(s@) is Ok,
            r matches Ok(m) ==> parse_mac(s@) == Ok::<Seq<u8>, ParseMacAddressError>(m@),
            r matches Err(e) ==> parse_mac(s@) == Err::<Seq<u8>, ParseMacAddressError>(e),
    {
        let chars = chars_of(s);
        let parts = split_parts(&chars);
        let ghost sp = split_colon(s@);
        let n = parts.len();
        assert(parts.deep_view().len() == n);
        let mut octets: Vec<u8> = Vec::new();
        let mut i: usize = 0;
        while i < n && i < 6
            invariant
                i <= n,
                i <= 6,
                sp == parts.deep_view(),
                sp == split_colon(s@),
                sp.len() == n,
                octets@.len() == i,
                forall|j: int| 0 <= j < i ==> parse_hex_octet(#[trigger] sp[j]) == Some(octets@[j]),
            decreases 6 - i,
        {
            assert(parts[i as int]@ =~= parts[i as int].deep_view());
            assert(parts[i as int]@ == sp[i as int]);
            match parse_octet(&parts[i]) {
                None => {
                    assert(parse_hex_octet(sp[i as int]) is None);
                    return Err(ParseMacAddressError::InvalidOctet);
                },
                Some(o) => {
                    octets.push(o);
                },
            }
            i = i + 1;
        }
        if n != 6 {
            return Err(ParseMacAddressError::InvalidLength(n));
        }
        let m = MacAddress { octets: [octets[0], octets[1], octets[2], octets[3], octets[4], octets[5]] };
        assert(m@ =~= Seq::new(6, |j: int| parse_hex_octet(sp[j]).unwrap()));
        Ok(m)
    }
}

// ---------------------------------------------------------------------------
// Formatting
// ---------------------------------------------------------------------------

/// The base-16 digit for `n < 16`, in lower or upper case.
fn hex_char(n: u8, upper: bool) -> (c: char)
    requires
        n < 16,
    ensures
        !upper ==> c == hex_char_lower(n),
        upper ==> c == hex_char_upper(n),
{
    if n < 10 {
        (0x30 + n) as char
    } else if upper {
        (0x41 + n - 10) as char
    } else {
        (0x61 + n - 10) as char
    }
}

/// Appends an octet as two base-16 digits.
fn push_octet(s: &mut String, b: u8, upper: bool)
    ensures
        !upper ==> final(s)@ == old(s)@ + octet_lower(b),
        upper ==> final(s)@ == old(s)@ + octet_upper(b),
{
    push_char(s, hex_char(b / 16, upper));
    push_char(s, hex_char(b % 16, upper));
    assert(!upper ==> s@ =~= old(s)@ + octet_lower(b));
    assert(upper ==> s@ =~= old(s)@ + octet_upper(b));
}

impl MacAddress {
    /// The address as `xx:xx:xx:xx:xx:xx` in lower case (its `Display` form).
    pub fn to_string(&self) -> (s: String)
        ensures
            s@ == mac_text(self@),
    {
        let mut s = String::new();
        push_octet(&mut s, self.octets[0], false);
        push_char(&mut s, ':');
        push_octet(&mut s, self.octets[1], false);
        push_char(&mut s, ':');
        push_octet(&mut s, self.octets[2], false);
        push_char(&mut s, ':');
        push_octet(&mut s, self.octets[3], false);
        push_char(&mut s, ':');
        push_octet(&mut s, self.octets[4], false);
        push_char(&mut s, ':');
        push_octet(&mut s, self.octets[5], false);
        assert(s@ =~= mac_text(self@));
        s
    }

    /// The address as twelve lower-case base-16 digits (its `LowerHex` form).
    pub fn to_lower_hex(&self) -> (s: String)
        ensures
            s@ == mac_lower_hex(self@),
    {
        let mut s = String::new();
        push_octet(&mut s, self.octets[0], false);
        push_octet(&mut s, self.octets[1], false);
        push_octet(&mut s, self.octets[2], false);
        push_octet(&mut s, self.octets[3], false);
        push_octet(&mut s, self.octets[4], false);
        push_octet(&mut s, self.octets[5], false);
        assert(s@ =~= mac_lower_hex(self@));
        s
    }

    /// The address as twelve upper-case base-16 digits (its `UpperHex` form).
    pub fn to_upper_hex(&self) -> (s: String)
        ensures
            s@ == mac_upper_hex(self@),
    {
        let mut s = String::new();
        push_octet(&mut s, self.octets[0], true);
        push_octet(&mut s, self.octets[1], true);
        push_octet(&mut s, self.octets[2], true);
        push_octet(&mut s, self.octets[3], true);
        push_octet(&mut s, self.octets[4], true);
        push_octet(&mut s, self.octets[5], true);
        assert(s@ =~= mac_upper_hex(self@));
        s
    }
}

// ---------------------------------------------------------------------------
// Laws of the text forms
// ---------------------------------------------------------------------------

/// A text without `:` is one part.
proof fn lemma_split_no_colon(x: Seq<char>)
    requires
        !x.contains(':'),
    ensures
        split_colon(x) == seq![x],
    decreases x.len(),
{
    if x.len() > 0 {
        assert(!x.drop_last().contains(':')) by {
            if x.drop_last().contains(':') {
                let k = choose|k: int| 0 <= k < x.drop_last().len() && x.drop_last()[k] == ':';
                assert(x[k] == ':');
            }
        }
        lemma_split_no_colon(x.drop_last());
        assert(x.last() != ':') by {
            if x.last() == ':' {
                assert(x[x.len() - 1] == ':');
            }
        }
        assert(x.drop_last().push(x.last()) =~= x);
        assert(split_colon(x) =~= seq![x]);
    } else {
        assert(x =~= Seq::<char>::empty());
    }
}

/// Splitting at a `:` splits the text into the parts before and after it.
proof fn lemma_split_concat(x: Seq<char>, y: Seq<char>)
    ensures
        split_colon(x + seq![':'] + y) == split_colon(x) + split_colon(y),
    decreases y.len(),
{
    let z = x + seq![':'] + y;
    if y.len() == 0 {
        assert(z.drop_last() =~= x);
        assert(split_colon(z) =~= split_colon(x) + split_colon(y));
    } else {
        let y1 = y.drop_last();
        lemma_split_concat(x, y1);
        lemma_split_colon_nonempty(y1);
        assert(z.drop_last() =~= x + seq![':'] + y1);
        assert(z.last() == y.last());
        assert(split_colon(z) =~= split_colon(x) + split_colon(y));
    }
}

/// Two base-16 digits written by `octet_lower` or `octet_upper` read back as the octet.
proof fn lemma_parse_octet_text(b: u8)
    ensures
        parse_hex_octet(octet_lower(b)) == Some(b),
        parse_hex_octet(octet_upper(b)) == Some(b),
        !octet_lower(b).contains(':'),
{
    let hi = b / 16;
    let lo = b % 16;
    assert(hi < 16 && lo < 16);
    assert(hi as nat * 16 + lo as nat == b as nat);
    let l = octet_lower(b);
    let u = octet_upper(b);
    assert(hex_digit_value(hex_char_lower(hi)) == Some(hi));
    assert(hex_digit_value(hex_char_lower(lo)) == Some(lo));
    assert(hex_digit_value(hex_char_upper(hi)) == Some(hi));
    assert(hex_digit_value(hex_char_upper(lo)) == Some(lo));
    assert(unsigned_digits(l) == l);
    assert(unsigned_digits(u) == u);
    assert(l.drop_last() =~= seq![hex_char_lower(hi)]);
    assert(seq![hex_char_lower(hi)].drop_last() =~= Seq::<char>::empty());
    assert(u.drop_last() =~= seq![hex_char_upper(hi)]);
    assert(seq![hex_char_upper(hi)].drop_last() =~= Seq::<char>::empty());
    let sl = seq![hex_char_lower(hi)];
    let su = seq![hex_char_upper(hi)];
    assert(hex_digits_value(Seq::<char>::empty()) == 0);
    assert(sl.drop_last() =~= Seq::<char>::empty());
    assert(su.drop_last() =~= Seq::<char>::empty());
    assert(sl.last() == hex_char_lower(hi));
    assert(su.last() == hex_char_upper(hi));
    assert(hex_digits_value(sl) == hi as nat);
    assert(hex_digits_value(su) == hi as nat);
    assert(l.last() == hex_char_lower(lo));
    assert(u.last() == hex_char_upper(lo));
    assert(hex_digits_value(l) == b as nat);
    assert(hex_digits_value(u) == b as nat);
    assert(is_hex_digits(l));
    assert(is_hex_digits(u));
    assert(!l.contains(':')) by {
        if l.contains(':') {
            let k = choose|k: int| 0 <= k < l.len() && l[k] == ':';
            assert(hex_digit_value(l[k]) is Some);
        }
    }
}

/// Reading the text that `to_string` writes gives back the address:
/// `MacAddress::from_str(&m.to_string())` is `Ok` with the octets of `m`.
pub proof fn law_parse_display_roundtrip(m: MacAddress)
    ensures
        parse_mac(mac_text(m@)) == Ok::<Seq<u8>, ParseMacAddressError>(m@),
{
    let o = m@;
    let a0 = octet_lower(o[0]);
    let a1 = octet_lower(o[1]);
    let a2 = octet_lower(o[2]);
    let a3 = octet_lower(o[3]);
    let a4 = octet_lower(o[4]);
    let a5 = octet_lower(o[5]);
    lemma_parse_octet_text(o[0]);
    lemma_parse_octet_text(o[1]);
    lemma_parse_octet_text(o[2]);
    lemma_parse_octet_text(o[3]);
    lemma_parse_octet_text(o[4]);
    lemma_parse_octet_text(o[5]);
    lemma_split_no_colon(a0);
    lemma_split_no_colon(a1);
    lemma_split_no_colon(a2);
    lemma_split_no_colon(a3);
    lemma_split_no_colon(a4);
    lemma_split_no_colon(a5);
    let p1 = a0 + seq![':'] + a1;
    let p2 = p1 + seq![':'] + a2;
    let p3 = p2 + seq![':'] + a3;
    let p4 = p3 + seq![':'] + a4;
    let p5 = p4 + seq![':'] + a5;
    lemma_split_concat(a0, a1);
    lemma_split_concat(p1, a2);
    lemma_split_concat(p2, a3);
    lemma_split_concat(p3, a4);
    lemma_split_concat(p4, a5);
    assert(p5 =~= mac_text(o));
    let parts = split_colon(mac_text(o));
    assert(parts =~= seq![a0, a1, a2, a3, a4, a5]);
    assert forall|i: int| 0 <= i < parts.len() && i < 6 implies (#[trigger] parse_hex_octet(
        parts[i],
    )) == Some(o[i]) by {
        assert(parts[i] == octet_lower(o[i]));
    }
    assert(Seq::new(6, |i: int| parse_hex_octet(parts[i]).unwrap()) =~= o);
}

/// The ASCII upper-case form of a character (`char::to_ascii_uppercase`).
pub open spec fn ascii_upper(c: char) -> char {
    let u = c as u32;
    if 0x61 <= u <= 0x7a {
        (u - 0x20) as char
    } else {
        c
    }
}

/// The upper-case digit of a value is the ASCII upper case of its lower-case digit.
proof fn lemma_hex_char_upper(n: u8)
    requires
        n < 16,
    ensures
        ascii_upper(hex_char_lower(n)) == hex_char_upper(n),
{
}

/// The three text forms agree: the lower-hex form is twelve digits, the
/// display form is that with a `:` after every second digit but the last, and
/// the upper-hex form is the ASCII upper case of the lower-hex form.
pub proof fn law_hex_forms(m: MacAddress)
    ensures
        mac_lower_hex(m@).len() == 12,
        mac_text(m@) == mac_lower_hex(m@).subrange(0, 2) + seq![':'] + mac_lower_hex(m@).subrange(
            2,
            4,
        ) + seq![':'] + mac_lower_hex(m@).subrange(4, 6) + seq![':'] + mac_lower_hex(m@).subrange(
            6,
            8,
        ) + seq![':'] + mac_lower_hex(m@).subrange(8, 10) + seq![':'] + mac_lower_hex(m@).subrange(
            10,
            12,
        ),
        mac_upper_hex(m@) == mac_lower_hex(m@).map_values(|c: char| ascii_upper(c)),
{
    let o = m@;
    let l = mac_lower_hex(o);
    assert(l.subrange(0, 2) =~= octet_lower(o[0]));
    assert(l.subrange(2, 4) =~= octet_lower(o[1]));
    assert(l.subrange(4, 6) =~= octet_lower(o[2]));
    assert(l.subrange(6, 8) =~= octet_lower(o[3]));
    assert(l.subrange(8, 10) =~= octet_lower(o[4]));
    assert(l.subrange(10, 12) =~= octet_lower(o[5]));
    lemma_hex_char_upper(o[0] / 16);
    lemma_hex_char_upper(o[0] % 16);
    lemma_hex_char_upper(o[1] / 16);
    lemma_hex_char_upper(o[1] % 16);
    lemma_hex_char_upper(o[2] / 16);
    lemma_hex_char_upper(o[2] % 16);
    lemma_hex_char_upper(o[3] / 16);
    lemma_hex_char_upper(o[3] % 16);
    lemma_hex_char_upper(o[4] / 16);
    lemma_hex_char_upper(o[4] % 16);
    lemma_hex_char_upper(o[5] / 16);
    lemma_hex_char_upper(o[5] % 16);
    assert(mac_upper_hex(o) =~= l.map_values(|c: char| ascii_upper(c)));
}

/// A lower-case base-16 digit: `0-9` or `a-f`.
pub open spec fn is_lower_hex_digit(c: char) -> bool {
    let u = c as u32;
    (0x30 <= u <= 0x39) || (0x61 <= u <= 0x66)
}

/// An upper-case base-16 digit: `0-9` or `A-F`.
pub open spec fn is_upper_hex_digit(c: char) -> bool {
    let u = c as u32;
    (0x30 <= u <= 0x39) || (0x41 <= u <= 0x46)
}

/// At `at` and `at + 1`, `t` holds the two lower-case base-16 digits of `b`:
/// first that of `b / 16`, then that of `b % 16` (the `{:02x}` form).
pub open spec fn lower_digits_at(t: Seq<char>, at: int, b: u8) -> bool {
    &&& is_lower_hex_digit(t[at]) && hex_digit_value(t[at]) == Some(b / 16)
    &&& is_lower_hex_digit(t[at + 1]) && hex_digit_value(t[at + 1]) == Some(b % 16)
}

/// At `at` and `at + 1`, `t` holds the two upper-case base-16 digits of `b`
/// (the `{:02X}` form).
pub open spec fn upper_digits_at(t: Seq<char>, at: int, b: u8) -> bool {
    &&& is_upper_hex_digit(t[at]) && hex_digit_value(t[at]) == Some(b / 16)
    &&& is_upper_hex_digit(t[at + 1]) && hex_digit_value(t[at + 1]) == Some(b % 16)
}

/// The digits of a value below 16, in either case.
proof fn lemma_hex_chars(n: u8)
    requires
        n < 16,
    ensures
        is_lower_hex_digit(hex_char_lower(n)),
        hex_digit_value(hex_char_lower(n)) == Some(n),
        is_upper_hex_digit(hex_char_upper(n)),
        hex_digit_value(hex_char_upper(n)) == Some(n),
{
}

/// The digits of an octet, in either case.
proof fn lemma_octet_digits(b: u8)
    ensures
        lower_digits_at(octet_lower(b), 0, b),
        upper_digits_at(octet_upper(b), 0, b),
{
    lemma_hex_chars(b / 16);
    lemma_hex_chars(b % 16);
}

/// The display form is 17 characters: each octet as exactly two lower-case
/// base-16 digits (of `b / 16`, then of `b % 16`), the six pairs in order and
/// separated by `:`.
pub proof fn law_display_digits(m: MacAddress)
    ensures
        mac_text(m@).len() == 17,
        lower_digits_at(mac_text(m@), 0, m@[0]),
        lower_digits_at(mac_text(m@), 3, m@[1]),
        lower_digits_at(mac_text(m@), 6, m@[2]),
        lower_digits_at(mac_text(m@), 9, m@[3]),
        lower_digits_at(mac_text(m@), 12, m@[4]),
        lower_digits_at(mac_text(m@), 15, m@[5]),
        mac_text(m@)[2] == ':' && mac_text(m@)[5] == ':' && mac_text(m@)[8] == ':'
            && mac_text(m@)[11] == ':' && mac_text(m@)[14] == ':',
{
    let o = m@;
    let t = mac_text(o);
    lemma_octet_digits(o[0]);
    lemma_octet_digits(o[1]);
    lemma_octet_digits(o[2]);
    lemma_octet_digits(o[3]);
    lemma_octet_digits(o[4]);
    lemma_octet_digits(o[5]);
    assert(t =~= seq![
        octet_lower(o[0])[0], octet_lower(o[0])[1], ':',
        octet_lower(o[1])[0], octet_lower(o[1])[1], ':',
        octet_lower(o[2])[0], octet_lower(o[2])[1], ':',
        octet_lower(o[3])[0], octet_lower(o[3])[1], ':',
        octet_lower(o[4])[0], octet_lower(o[4])[1], ':',
        octet_lower(o[5])[0], octet_lower(o[5])[1],
    ]);
}

/// The lower- and upper-hex forms are 12 characters: each octet as exactly
/// two base-16 digits of the form's case, the six pairs in order.
pub proof fn law_hex_digits(m: MacAddress)
    ensures
        mac_lower_hex(m@).len() == 12,
        lower_digits_at(mac_lower_hex(m@), 0, m@[0]),
        lower_digits_at(mac_lower_hex(m@), 2, m@[1]),
        lower_digits_at(mac_lower_hex(m@), 4, m@[2]),
        lower_digits_at(mac_lower_hex(m@), 6, m@[3]),
        lower_digits_at(mac_lower_hex(m@), 8, m@[4]),
        lower_digits_at(mac_lower_hex(m@), 10, m@[5]),
        mac_upper_hex(m@).len() == 12,
        upper_digits_at(mac_upper_hex(m@), 0, m@[0]),
        upper_digits_at(mac_upper_hex(m@), 2, m@[1]),
        upper_digits_at(mac_upper_hex(m@), 4, m@[2]),
        upper_digits_at(mac_upper_hex(m@), 6, m@[3]),
        upper_digits_at(mac_upper_hex(m@), 8, m@[4]),
        upper_digits_at(mac_upper_hex(m@), 10, m@[5]),
{
    let o = m@;
    lemma_octet_digits(o[0]);
    lemma_octet_digits(o[1]);
    lemma_octet_digits(o[2]);
    lemma_octet_digits(o[3]);
    lemma_octet_digits(o[4]);
    lemma_octet_digits(o[5]);
    assert(mac_lower_hex(o) =~= seq![
        octet_lower(o[0])[0], octet_lower(o[0])[1],
        octet_lower(o[1])[0], octet_lower(o[1])[1],
        octet_lower(o[2])[0], octet_lower(o[2])[1],
        octet_lower(o[3])[0], octet_lower(o[3])[1],
        octet_lower(o[4])[0], octet_lower(o[4])[1],
        octet_lower(o[5])[0], octet_lower(o[5])[1],
    ]);
    assert(mac_upper_hex(o) =~= seq![
        octet_upper(o[0])[0], octet_upper(o[0])[1],
        octet_upper(o[1])[0], octet_upper(o[1])[1],
        octet_upper(o[2])[0], octet_upper(o[2])[1],
        octet_upper(o[3])[0], octet_upper(o[3])[1],
        octet_upper(o[4])[0], octet_upper(o[4])[1],
        octet_upper(o[5])[0], octet_upper(o[5])[1],
    ]);
}

impl std::str::FromStr for MacAddress {
    type Err = ParseMacAddressError;

    /// Parses a MAC address, as `MacAddress::from_str` does.
    fn from_str(s: &str) -> (r: Result<MacAddress, ParseMacAddressError>)
        ensures
            r is Ok <==> parse_mac(s@) is Ok,
            r matches Ok(m) ==> parse_mac(s@) == Ok::<Seq<u8>, ParseMacAddressError>(m@),
            r matches Err(e) ==> parse_mac(s@) == Err::<Seq<u8>, ParseMacAddressError>(e),
    {
        MacAddress::from_str(s)
    }
}

} // verus!
