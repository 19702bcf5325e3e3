//! Addresses of sibling ingest nodes.
//!
//! A peer address is the byte string `scheme "://" host ":" port`: the scheme
//! starts with a letter and goes on with letters, digits, `+`, `-` and `.`;
//! the host is made of letters, digits, `-` and `.`; the port is one to five
//! decimal digits whose value is at most 65535.

use vstd::prelude::*;
use vstd::slice::slice_to_vec;
use vstd::string::StringSliceAdditionalSpecFns;
use vstd::utf8::encode_utf8;

verus! {

/// The byte `:`.
pub const COLON: u8 = 58;

/// The byte `/`.
pub const SLASH: u8 = 47;

/// The byte `0`.
pub const DIGIT_ZERO: u8 = 48;

/// The largest port number.
pub const MAX_PORT: u32 = 65535;

/// The sets of bytes that the parts of an address are made of.
#[derive(Clone, Copy, Debug, PartialEq, Eq, Structural)]
pub enum ByteClass {
    /// Letters, digits, `+`, `-` and `.`.
    Scheme,
    /// Letters, digits, `-` and `.`.
    Host,
    /// Decimal digits.
    Digit,
}

/// An ASCII letter.
pub open spec fn is_letter(x: u8) -> bool {
    (97 <= x <= 122) || (65 <= x <= 90)
}

/// An ASCII decimal digit.
pub open spec fn is_digit(x: u8) -> bool {
    48 <= x <= 57
}

/// Whether the byte `x` belongs to the class `c`.
pub open spec fn in_class(c: ByteClass, x: u8) -> bool {
    match c {
        ByteClass::Scheme => is_letter(x) || is_digit(x) || x == 43 || x == 45 || x == 46,
        ByteClass::Host => is_letter(x) || is_digit(x) || x == 45 || x == 46,
        ByteClass::Digit => is_digit(x),
    }
}

/// The number that a string of decimal digits writes.
pub open spec fn decimal_value(digits: Seq<u8>) -> nat
    decreases digits.len(),
{
    if digits.len() == 0 {
        0
    } else {
        decimal_value(digits.drop_last()) * 10 + (digits.last() - 48) as nat
    }
}

/// Whether `b` is a peer address whose scheme has `scheme_len` bytes and
/// whose host has `host_len` bytes.
pub open spec fn peer_address_parts(b: Seq<u8>, scheme_len: int, host_len: int) -> bool {
    let host_start = scheme_len + 3;
    let port_start = host_start + host_len + 1;
    &&& 1 <= scheme_len
    &&& 1 <= host_len
    &&& port_start < b.len() <= port_start + 5
    &&& is_letter(b[0])
    &&& forall|i: int| 0 <= i < scheme_len ==> in_class(ByteClass::Scheme, #[trigger] b[i])
    &&& b[scheme_len] == COLON
    &&& b[scheme_len + 1] == SLASH
    &&& b[scheme_len + 2] == SLASH
    &&& forall|i: int|
        host_start <= i < host_start + host_len ==> in_class(ByteClass::Host, #[trigger] b[i])
    &&& b[host_start + host_len] == COLON
    &&& forall|i: int| port_start <= i < b.len() ==> in_class(ByteClass::Digit, #[trigger] b[i])
    &&& decimal_value(b.subrange(port_start, b.len() as int)) <= MAX_PORT
}

/// Whether `b` is a peer address.
pub open spec fn is_peer_address(b: Seq<u8>) -> bool {
    exists|scheme_len: int, host_len: int| peer_address_parts(b, scheme_len, host_len)
}

/// Why a string is no peer address.
#[derive(Clone, Copy, Debug, PartialEq, Eq, Structural)]
pub enum PeerUriError {
    /// The string does not read `scheme "://" host ":" port`.
    Malformed,
}

/// The address of a sibling ingest node, as it was parsed.
#[derive(Debug, PartialEq, Eq)]
pub struct PeerUri {
    address: Vec<u8>,
    scheme_len: usize,
    host_len: usize,
    port: u16,
}

impl View for PeerUri {
    type V = Seq<u8>;

    /// The bytes of the address.
    closed spec fn view(&self) -> Seq<u8> {
        self.address@
    }
}

/// The addresses of a list of peers, each as its bytes.
pub open spec fn peers_view(peers: Seq<PeerUri>) -> Seq<Seq<u8>> {
    Seq::new(peers.len(), |i: int| peers[i]@)
}

/// The bytes of each string of a list.
pub open spec fn address_bytes(addresses: Seq<String>) -> Seq<Seq<u8>> {
    Seq::new(addresses.len(), |i: int| encode_utf8(addresses[i]@))
}

/// Whether every string of the list is a peer address.
pub open spec fn all_peer_addresses(addresses: Seq<String>) -> bool {
    forall|i: int|
        0 <= i < addresses.len() ==> is_peer_address(#[trigger] address_bytes(addresses)[i])
}

impl Clone for PeerUri {
    /// A copy of the address.
    fn clone(&self) -> (r: PeerUri)
        ensures
            r@ == self@,
            r.spec_scheme_len() == self.spec_scheme_len(),
            r.spec_host_len() == self.spec_host_len(),
            r.spec_port() == self.spec_port(),
    {
        self.duplicate()
    }
}

/// Tells whether the byte `x` belongs to the class `c`.
pub fn class_holds(c: ByteClass, x: u8) -> (r: bool)
    ensures
        r == in_class(c, x),
{
    let letter = (97 <= x && x <= 122) || (65 <= x && x <= 90);
    let digit = 48 <= x && x <= 57;
    match c {
        ByteClass::Scheme => letter || digit || x == 43 || x == 45 || x == 46,
        ByteClass::Host => letter || digit || x == 45 || x == 46,
        ByteClass::Digit => digit,
    }
}

/// The end of the longest run of bytes of class `c` that starts at `from`.
pub fn scan_class(b: &[u8], from: usize, c: ByteClass) -> (end: usize)
    requires
        from <= b@.len(),
    ensures
        from <= end <= b@.len(),
        forall|i: int| from <= i < end ==> in_class(c, #[trigger] b@[i]),
        end < b@.len() ==> !in_class(c, b@[end as int]),
{
    let mut end: usize = from;
    while end < b.len() && class_holds(c, b[end])
        invariant
            from <= end <= b@.len(),
            forall|i: int| from <= i < end ==> in_class(c, #[trigger] b@[i]),
        decreases b@.len() - end,
    {
        end = end + 1;
    }
    end
}

/// The number written by the digits `b[from..]`, of which there are at most
/// five.
pub fn read_decimal(b: &[u8], from: usize) -> (v: u32)
    requires
        from <= b@.len() <= from + 5,
        forall|i: int| from <= i < b@.len() ==> in_class(ByteClass::Digit, #[trigger] b@[i]),
    ensures
        v == decimal_value(b@.subrange(from as int, b@.len() as int)),
{
    let mut v: u32 = 0;
    let mut i: usize = from;
    while i < b.len()
        invariant
            from <= i <= b@.len() <= from + 5,
            forall|k: int| from <= k < b@.len() ==> in_class(ByteClass::Digit, #[trigger] b@[k]),
            v == decimal_value(b@.subrange(from as int, i as int)),
            i - from == 0 ==> v == 0,
            i - from == 1 ==> v <= 9,
            i - from == 2 ==> v <= 99,
            i - from == 3 ==> v <= 999,
            i - from == 4 ==> v <= 9999,
            i - from == 5 ==> v <= 99999,
        decreases b@.len() - i,
    {
        proof {
            let next = b@.subrange(from as int, i + 1);
            assert(next.drop_last() =~= b@.subrange(from as int, i as int));
            assert(next.last() == b@[i as int]);
        }
        v = v * 10 + (b[i] - DIGIT_ZERO) as u32;
        i = i + 1;
    }
    v
}

/// The scheme of a peer address ends where its first run of scheme bytes
/// ends, and its host where the run of host bytes behind `://` ends: the
/// bytes of an address determine its parts.
pub proof fn lemma_parts_determined(b: Seq<u8>, scheme_len: int, host_len: int, s: int, he: int)
    requires
        peer_address_parts(b, scheme_len, host_len),
        0 <= s <= b.len(),
        forall|i: int| 0 <= i < s ==> in_class(ByteClass::Scheme, #[trigger] b[i]),
        s < b.len() ==> !in_class(ByteClass::Scheme, b[s]),
    ensures
        s == scheme_len,
        s + 3 <= he <= b.len() && (forall|i: int|
            s + 3 <= i < he ==> in_class(ByteClass::Host, #[trigger] b[i])) && (he < b.len()
            ==> !in_class(ByteClass::Host, b[he])) ==> he == s + 3 + host_len,
{
    assert(!in_class(ByteClass::Scheme, b[scheme_len]));
    assert(in_class(ByteClass::Scheme, b[0]));
    assert(!in_class(ByteClass::Host, b[scheme_len + 3 + host_len]));
}

/// A peer address splits into scheme, host and port in one way only.
pub proof fn law_parts_unique(b: Seq<u8>, s1: int, h1: int, s2: int, h2: int)
    requires
        peer_address_parts(b, s1, h1),
        peer_address_parts(b, s2, h2),
    ensures
        s1 == s2,
        h1 == h2,
{
    assert(!in_class(ByteClass::Scheme, b[s1]));
    assert(!in_class(ByteClass::Scheme, b[s2]));
    assert(!in_class(ByteClass::Host, b[s1 + 3 + h1]));
    assert(!in_class(ByteClass::Host, b[s2 + 3 + h2]));
}

/// The lengths of the scheme and of the host of the address `b`, and its
/// port; `None` where `b` is no peer address.
pub fn split_address(b: &[u8]) -> (r: Option<(usize, usize, u16)>)
    ensures
        r is Some <==> is_peer_address(b@),
        r matches Some((scheme_len, host_len, port)) ==> {
            &&& peer_address_parts(b@, scheme_len as int, host_len as int)
            &&& port == decimal_value(b@.subrange(scheme_len + host_len + 4, b@.len() as int))
        },
{
    let n = b.len();
    let s = scan_class(b, 0, ByteClass::Scheme);
    if s == 0 || n - s < 3 {
        assert forall|sl: int, hl: int| !peer_address_parts(b@, sl, hl) by {
            if peer_address_parts(b@, sl, hl) {
                lemma_parts_determined(b@, sl, hl, s as int, 0);
            }
        }
        return None;
    }
    let letter = (97 <= b[0] && b[0] <= 122) || (65 <= b[0] && b[0] <= 90);
    if !letter || b[s] != COLON || b[s + 1] != SLASH || b[s + 2] != SLASH {
        assert forall|sl: int, hl: int| !peer_address_parts(b@, sl, hl) by {
            if peer_address_parts(b@, sl, hl) {
                lemma_parts_determined(b@, sl, hl, s as int, 0);
            }
        }
        return None;
    }
    let hs = s + 3;
    let he = scan_class(b, hs, ByteClass::Host);
    if he == hs || he >= n || b[he] != COLON {
        assert forall|sl: int, hl: int| !peer_address_parts(b@, sl, hl) by {
            if peer_address_parts(b@, sl, hl) {
                lemma_parts_determined(b@, sl, hl, s as int, he as int);
            }
        }
        return None;
    }
    let ps = he + 1;
    let pe = scan_class(b, ps, ByteClass::Digit);
    if pe != n || pe == ps || n - ps > 5 {
        assert forall|sl: int, hl: int| !peer_address_parts(b@, sl, hl) by {
            if peer_address_parts(b@, sl, hl) {
                lemma_parts_determined(b@, sl, hl, s as int, he as int);
            }
        }
        return None;
    }
    let v = read_decimal(b, ps);
    if v > MAX_PORT {
        assert forall|sl: int, hl: int| !peer_address_parts(b@, sl, hl) by {
            if peer_address_parts(b@, sl, hl) {
                lemma_parts_determined(b@, sl, hl, s as int, he as int);
            }
        }
        return None;
    }
    assert(peer_address_parts(b@, s as int, he - hs));
    Some((s, he - hs, v as u16))
}

impl PeerUri {
    /// Every address has the shape that it was parsed in: its bytes form a
    /// peer address with the recorded scheme, host and port.
    #[verifier::type_invariant]
    spec fn inv(self) -> bool {
        &&& peer_address_parts(self.address@, self.scheme_len as int, self.host_len as int)
        &&& self.port == decimal_value(
            self.address@.subrange(self.scheme_len + self.host_len + 4, self.address@.len() as int),
        )
    }

    /// The length of the scheme.
    pub closed spec fn spec_scheme_len(&self) -> int {
        self.scheme_len as int
    }

    /// The length of the host.
    pub closed spec fn spec_host_len(&self) -> int {
        self.host_len as int
    }

    /// The port that the address names.
    pub closed spec fn spec_port(&self) -> u16 {
        self.port
    }

    /// The scheme of the address.
    pub open spec fn spec_scheme(&self) -> Seq<u8> {
        self@.subrange(0, self.spec_scheme_len())
    }

    /// The host of the address.
    pub open spec fn spec_host(&self) -> Seq<u8> {
        let start = self.spec_scheme_len() + 3;
        self@.subrange(start, start + self.spec_host_len())
    }

    /// The digits of the port.
    pub open spec fn spec_port_digits(&self) -> Seq<u8> {
        self@.subrange(self.spec_scheme_len() + self.spec_host_len() + 4, self@.len() as int)
    }

    /// What holds of every address: its bytes are a peer address, made of its
    /// scheme, `://`, its host, `:` and the digits of its port.
    pub open spec fn shaped(&self) -> bool {
        &&& peer_address_parts(self@, self.spec_scheme_len(), self.spec_host_len())
        &&& self.spec_port() == decimal_value(self.spec_port_digits())
    }

    /// Parses a peer address; a string that is none is refused as a whole.
    pub fn parse(address: &str) -> (res: Result<PeerUri, PeerUriError>)
        ensures
            res is Ok <==> is_peer_address(address.spec_bytes()),
            res matches Ok(uri) ==> uri@ == address.spec_bytes() && uri.shaped(),
            res matches Err(e) ==> e == PeerUriError::Malformed,
    {
        let bytes = address.as_bytes();
        match split_address(bytes) {
            Some((scheme_len, host_len, port)) => Ok(
                PeerUri { address: slice_to_vec(bytes), scheme_len, host_len, port },
            ),
            None => Err(PeerUriError::Malformed),
        }
    }

    /// The bytes of the address.
    pub fn as_bytes(&self) -> (b: &Vec<u8>)
        ensures
            b@ == self@,
            is_peer_address(self@),
            self.shaped(),
    {
        proof {
            use_type_invariant(self);
        }
        &self.address
    }

    /// The port that the address names.
    pub fn port(&self) -> (p: u16)
        ensures
            p == self.spec_port(),
            self.shaped(),
    {
        proof {
            use_type_invariant(self);
        }
        self.port
    }

    /// The scheme of the address.
    pub fn scheme(&self) -> (s: Vec<u8>)
        ensures
            s@ == self.spec_scheme(),
            self.shaped(),
    {
        proof {
            use_type_invariant(self);
        }
        let mut s: Vec<u8> = Vec::new();
        let mut i: usize = 0;
        while i < self.scheme_len
            invariant
                self.scheme_len < self.address@.len(),
                i <= self.scheme_len,
                s@ == self.address@.subrange(0, i as int),
            decreases self.scheme_len - i,
        {
            s.push(self.address[i]);
            i = i + 1;
            assert(s@ =~= self.address@.subrange(0, i as int));
        }
        s
    }

    /// The host of the address.
    pub fn host(&self) -> (h: Vec<u8>)
        ensures
            h@ == self.spec_host(),
            self.shaped(),
    {
        proof {
            use_type_invariant(self);
        }
        let n = self.address.len();
        assert(self.scheme_len + 3 + self.host_len < n);
        let start = self.scheme_len + 3;
        let mut h: Vec<u8> = Vec::new();
        let mut i: usize = 0;
        while i < self.host_len
            invariant
                start == self.scheme_len + 3,
                start + self.host_len < n,
                n == self.address@.len(),
                i <= self.host_len,
                h@ == self.address@.subrange(start as int, start + i),
            decreases self.host_len - i,
        {
            h.push(self.address[start + i]);
            i = i + 1;
            assert(h@ =~= self.address@.subrange(start as int, start + i));
        }
        h
    }

    /// A copy of the address.
    pub fn duplicate(&self) -> (r: PeerUri)
        ensures
            r@ == self@,
            r.spec_scheme_len() == self.spec_scheme_len(),
            r.spec_host_len() == self.spec_host_len(),
            r.spec_port() == self.spec_port(),
    {
        proof {
            use_type_invariant(self);
        }
        let mut address: Vec<u8> = Vec::new();
        let mut i: usize = 0;
        while i < self.address.len()
            invariant
                i <= self.address@.len(),
                address@ == self.address@.subrange(0, i as int),
            decreases self.address@.len() - i,
        {
            address.push(self.address[i]);
            i = i + 1;
            assert(address@ =~= self.address@.subrange(0, i as int));
        }
        assert(address@ =~= self.address@);
        PeerUri { address, scheme_len: self.scheme_len, host_len: self.host_len, port: self.port }
    }
}

/// Parses every address of the list, in order. One string that is no peer
/// address has the whole list refused.
pub fn parse_peers(addresses: &Vec<String>) -> (res: Result<Vec<PeerUri>, PeerUriError>)
    ensures
        res is Ok <==> all_peer_addresses(addresses@),
        res matches Ok(peers) ==> {
            &&& peers_view(peers@) == address_bytes(addresses@)
            &&& forall|i: int| 0 <= i < peers@.len() ==> (#[trigger] peers@[i]).shaped()
        },
        res matches Err(e) ==> e == PeerUriError::Malformed,
{
    let mut peers: Vec<PeerUri> = Vec::new();
    let mut i: usize = 0;
    while i < addresses.len()
        invariant
            i <= addresses@.len(),
            peers@.len() == i,
            forall|k: int| 0 <= k < i ==> (#[trigger] peers@[k])@ == address_bytes(addresses@)[k],
            forall|k: int| 0 <= k < i ==> (#[trigger] peers@[k]).shaped(),
            forall|k: int| 0 <= k < i ==> is_peer_address(#[trigger] address_bytes(addresses@)[k]),
        decreases addresses@.len() - i,
    {
        let text: &str = addresses[i].as_str();
        assert(text.spec_bytes() == address_bytes(addresses@)[i as int]);
        match PeerUri::parse(text) {
            Ok(uri) => {
                peers.push(uri);
            },
            Err(e) => {
                assert(!is_peer_address(address_bytes(addresses@)[i as int]));
                return Err(e);
            },
        }
        i = i + 1;
    }
    assert(peers_view(peers@) =~= address_bytes(addresses@));
    Ok(peers)
}

} // verus!
