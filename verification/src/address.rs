//! Decoder for kernel network-link address records: a family-tagged header
//! plus a sequence of typed attributes becomes a validated [`Address`].

use vstd::prelude::*;
use vstd::slice::slice_to_vec;

verus! {

/// Address-family tag of an IPv4 record.
pub const AF_INET: u16 = 2;

/// Address-family tag of an IPv6 record.
pub const AF_INET6: u16 = 10;

/// A plain IP value: four octets, or eight 16-bit groups assembled
/// big-endian from sixteen octets.
#[derive(Debug, Clone, Copy, PartialEq, Eq, Structural)]
pub enum IpAddress {
    V4(u8, u8, u8, u8),
    V6(u16, u16, u16, u16, u16, u16, u16, u16),
}

/// Why a record failed to decode.
#[derive(Debug, Clone, PartialEq, Eq)]
pub enum DecodeError {
    /// The payload length does not fit the declared family: `expected`
    /// bytes were required, `addr` is the offending payload.
    InvalidAddressLength { addr: Vec<u8>, expected: usize },
    /// The family tag is neither `AF_INET` nor `AF_INET6`.
    UnknownFamily { family: u8 },
}

/// Mathematical image of a [`DecodeError`].
pub enum DecodeErrorView {
    InvalidAddressLength { addr: Seq<u8>, expected: int },
    UnknownFamily { family: u8 },
}

impl View for DecodeError {
    type V = DecodeErrorView;

    open spec fn view(&self) -> DecodeErrorView {
        match self {
            DecodeError::InvalidAddressLength { addr, expected } =>
                DecodeErrorView::InvalidAddressLength { addr: addr@, expected: *expected as int },
            DecodeError::UnknownFamily { family } =>
                DecodeErrorView::UnknownFamily { family: *family },
        }
    }
}

/// Payload length that a family tag demands: 4 bytes for IPv4, 16 for
/// anything else (the unknown-family check comes after the length check).
pub open spec fn ip_len_of(family: u8) -> int {
    if family as u16 == AF_INET {
        4
    } else {
        16
    }
}

/// The 16-bit group `i` of an IPv6 payload, assembled big-endian.
pub open spec fn v6_group(b: Seq<u8>, i: int) -> u16 {
    (b[2 * i] as int * 256 + b[2 * i + 1] as int) as u16
}

/// What `parse_ip` returns on every input.
pub open spec fn parse_ip_spec(ip: Seq<u8>, family: u8) -> Result<IpAddress, DecodeErrorView> {
    if ip.len() != ip_len_of(family) {
        Err(DecodeErrorView::InvalidAddressLength { addr: ip, expected: ip_len_of(family) })
    } else if family as u16 == AF_INET {
        Ok(IpAddress::V4(ip[0], ip[1], ip[2], ip[3]))
    } else if family as u16 == AF_INET6 {
        Ok(IpAddress::V6(
            v6_group(ip, 0),
            v6_group(ip, 1),
            v6_group(ip, 2),
            v6_group(ip, 3),
            v6_group(ip, 4),
            v6_group(ip, 5),
            v6_group(ip, 6),
            v6_group(ip, 7),
        ))
    } else {
        Err(DecodeErrorView::UnknownFamily { family })
    }
}

/// Turns a raw address payload into an [`IpAddress`]: IPv4 octets are kept
/// in input order, IPv6 octets are paired big-endian into groups; a wrong
/// length or an unknown family tag is rejected.
pub fn parse_ip(ip: &[u8], family: u8) -> (r: Result<IpAddress, DecodeError>)
    ensures
        match r {
            Ok(a) => parse_ip_spec(ip@, family) == Ok::<IpAddress, DecodeErrorView>(a),
            Err(e) => parse_ip_spec(ip@, family) == Err::<IpAddress, DecodeErrorView>(e@),
        },
{
    let support_len: usize = if family as u16 == AF_INET {
        4
    } else {
        16
    };
    if ip.len() != support_len {
        return Err(DecodeError::InvalidAddressLength { addr: slice_to_vec(ip), expected: support_len });
    }
    if family as u16 == AF_INET {
        Ok(IpAddress::V4(ip[0], ip[1], ip[2], ip[3]))
    } else if family as u16 == AF_INET6 {
        let g0 = (ip[0] as u16) * 256 + (ip[1] as u16);
        let g1 = (ip[2] as u16) * 256 + (ip[3] as u16);
        let g2 = (ip[4] as u16) * 256 + (ip[5] as u16);
        let g3 = (ip[6] as u16) * 256 + (ip[7] as u16);
        let g4 = (ip[8] as u16) * 256 + (ip[9] as u16);
        let g5 = (ip[10] as u16) * 256 + (ip[11] as u16);
        let g6 = (ip[12] as u16) * 256 + (ip[13] as u16);
        let g7 = (ip[14] as u16) * 256 + (ip[15] as u16);
        Ok(IpAddress::V6(g0, g1, g2, g3, g4, g5, g6, g7))
    } else {
        Err(DecodeError::UnknownFamily { family })
    }
}

/// One typed attribute of an address record. `CacheInfo` and `Other` model
/// the attribute kinds this decoder deliberately ignores; `Other` carries
/// the unrecognized kind tag so that callers can still log it.
#[derive(Debug, Clone, PartialEq, Eq)]
pub enum AddressAttr {
    Address(Vec<u8>),
    Broadcast(Vec<u8>),
    Label(String),
    Flags(u32),
    CacheInfo(Vec<u8>),
    Other(u16, Vec<u8>),
}

/// Mathematical image of an [`AddressAttr`].
pub enum AddressAttrView {
    Address(Seq<u8>),
    Broadcast(Seq<u8>),
    Label(Seq<char>),
    Flags(u32),
    CacheInfo(Seq<u8>),
    Other(u16, Seq<u8>),
}

impl View for AddressAttr {
    type V = AddressAttrView;

    open spec fn view(&self) -> AddressAttrView {
        match self {
            AddressAttr::Address(b) => AddressAttrView::Address(b@),
            AddressAttr::Broadcast(b) => AddressAttrView::Broadcast(b@),
            AddressAttr::Label(l) => AddressAttrView::Label(l@),
            AddressAttr::Flags(f) => AddressAttrView::Flags(*f),
            AddressAttr::CacheInfo(b) => AddressAttrView::CacheInfo(b@),
            AddressAttr::Other(kind, b) => AddressAttrView::Other(*kind, b@),
        }
    }
}

/// Fixed-size header of an address record.
#[derive(Debug, Clone, Copy, PartialEq, Eq, Structural)]
pub struct AddressHeader {
    pub family: u8,
    pub prefix_len: u8,
    pub scope: u8,
}

/// A framed address record as the netlink layer hands it over: a header and
/// an ordered attribute list.
#[derive(Debug, Clone, PartialEq, Eq)]
pub struct AddressRecord {
    pub header: AddressHeader,
    pub attrs: Vec<AddressAttr>,
}

/// Mathematical image of an [`AddressRecord`].
pub struct AddressRecordView {
    pub header: AddressHeader,
    pub attrs: Seq<AddressAttrView>,
}

impl View for AddressRecord {
    type V = AddressRecordView;

    open spec fn view(&self) -> AddressRecordView {
        AddressRecordView {
            header: self.header,
            attrs: self.attrs@.map_values(|a: AddressAttr| a@),
        }
    }
}

/// One IP address record of a network link, decoded and validated.
#[derive(Debug, Clone, PartialEq, Eq)]
pub struct Address {
    pub addr: IpAddress,
    pub label: String,
    pub flags: u32,
    pub scope: u8,
    pub prefix_len: u8,
    pub peer: IpAddress,
    pub broadcast: IpAddress,
    pub preferred_lft: u32,
    pub valid_lft: u32,
}

/// Mathematical image of an [`Address`].
#[verifier::ext_equal]
pub struct AddressView {
    pub addr: IpAddress,
    pub label: Seq<char>,
    pub flags: u32,
    pub scope: u8,
    pub prefix_len: u8,
    pub peer: IpAddress,
    pub broadcast: IpAddress,
    pub preferred_lft: u32,
    pub valid_lft: u32,
}

impl View for Address {
    type V = AddressView;

    open spec fn view(&self) -> AddressView {
        AddressView {
            addr: self.addr,
            label: self.label@,
            flags: self.flags,
            scope: self.scope,
            prefix_len: self.prefix_len,
            peer: self.peer,
            broadcast: self.broadcast,
            preferred_lft: self.preferred_lft,
            valid_lft: self.valid_lft,
        }
    }
}

/// The unspecified address of a record's family: all-zero IPv6 groups for
/// the IPv6 family tag, the IPv4 zero address otherwise.
pub open spec fn unspecified_ip(family: u8) -> IpAddress {
    if family as u16 == AF_INET6 {
        IpAddress::V6(0, 0, 0, 0, 0, 0, 0, 0)
    } else {
        IpAddress::V4(0, 0, 0, 0)
    }
}

/// The family-correct defaults an address starts from: unspecified
/// addresses of the record's family, empty label, zero flags and
/// lifetimes, with the header's scope and prefix length copied through.
pub open spec fn initial_address(header: AddressHeader) -> AddressView {
    AddressView {
        addr: unspecified_ip(header.family),
        label: Seq::<char>::empty(),
        flags: 0,
        scope: header.scope,
        prefix_len: header.prefix_len,
        peer: unspecified_ip(header.family),
        broadcast: unspecified_ip(header.family),
        preferred_lft: 0,
        valid_lft: 0,
    }
}

/// An attribute kind the decoder skips without effect.
pub open spec fn is_ignored_attr(attr: AddressAttrView) -> bool {
    attr matches AddressAttrView::CacheInfo(_) || attr matches AddressAttrView::Other(_, _)
}

/// How one attribute rewrites the address built so far: recognized kinds
/// overwrite their field, embedded addresses are parsed under the record's
/// family, ignored kinds leave the value unchanged.
pub open spec fn apply_attr(cur: AddressView, family: u8, attr: AddressAttrView) -> Result<
    AddressView,
    DecodeErrorView,
> {
    match attr {
        AddressAttrView::Address(bytes) => match parse_ip_spec(bytes, family) {
            Ok(ip) => Ok(AddressView { addr: ip, ..cur }),
            Err(e) => Err(e),
        },
        AddressAttrView::Broadcast(bytes) => match parse_ip_spec(bytes, family) {
            Ok(ip) => Ok(AddressView { broadcast: ip, ..cur }),
            Err(e) => Err(e),
        },
        AddressAttrView::Label(l) => Ok(AddressView { label: l, ..cur }),
        AddressAttrView::Flags(f) => Ok(AddressView { flags: f, ..cur }),
        AddressAttrView::CacheInfo(_) => Ok(cur),
        AddressAttrView::Other(_, _) => Ok(cur),
    }
}

/// Left fold of [`apply_attr`] over an attribute list; the first malformed
/// embedded address aborts the decode.
pub open spec fn decode_attrs(
    cur: AddressView,
    family: u8,
    attrs: Seq<AddressAttrView>,
) -> Result<AddressView, DecodeErrorView>
    decreases attrs.len(),
{
    if attrs.len() == 0 {
        Ok(cur)
    } else {
        match apply_attr(cur, family, attrs[0]) {
            Ok(next) => decode_attrs(next, family, attrs.drop_first()),
            Err(e) => Err(e),
        }
    }
}

/// What decoding a whole record returns on every input.
pub open spec fn decode_spec(record: AddressRecordView) -> Result<AddressView, DecodeErrorView> {
    decode_attrs(initial_address(record.header), record.header.family, record.attrs)
}

impl Address {
    /// Decodes a framed address record: starts from the family-correct
    /// defaults of the header,
    /// overwrites exactly the fields whose attributes are present, skips
    /// unrecognized attribute kinds, and fails only on a malformed embedded
    /// address payload.
    pub fn decode(record: &AddressRecord) -> (r: Result<Address, DecodeError>)
        ensures
            match r {
                Ok(a) => decode_spec(record@) == Ok::<AddressView, DecodeErrorView>(a@),
                Err(e) => decode_spec(record@) == Err::<AddressView, DecodeErrorView>(e@),
            },
    {
        let header = record.header;
        let unspecified = if header.family as u16 == AF_INET6 {
            IpAddress::V6(0, 0, 0, 0, 0, 0, 0, 0)
        } else {
            IpAddress::V4(0, 0, 0, 0)
        };
        let mut out = Address {
            addr: unspecified,
            label: String::new(),
            flags: 0,
            scope: header.scope,
            prefix_len: header.prefix_len,
            peer: unspecified,
            broadcast: unspecified,
            preferred_lft: 0,
            valid_lft: 0,
        };
        let n = record.attrs.len();
        assert(record@.attrs.skip(0) =~= record@.attrs);
        for i in 0..n
            invariant
                n == record.attrs.len(),
                header == record.header,
                decode_attrs(out@, header.family, record@.attrs.skip(i as int)) == decode_spec(
                    record@,
                ),
        {
            proof {
                assert(record@.attrs.skip(i as int).drop_first() =~= record@.attrs.skip(
                    i as int + 1,
                ));
            }
            match &record.attrs[i] {
                AddressAttr::Address(bytes) => {
                    match parse_ip(bytes.as_slice(), header.family) {
                        Ok(ip) => {
                            out.addr = ip;
                        },
                        Err(e) => {
                            return Err(e);
                        },
                    }
                },
                AddressAttr::Broadcast(bytes) => {
                    match parse_ip(bytes.as_slice(), header.family) {
                        Ok(ip) => {
                            out.broadcast = ip;
                        },
                        Err(e) => {
                            return Err(e);
                        },
                    }
                },
                AddressAttr::Label(l) => {
                    out.label = l.clone();
                },
                AddressAttr::Flags(f) => {
                    out.flags = *f;
                },
                AddressAttr::CacheInfo(_) => {},
                AddressAttr::Other(_, _) => {},
            }
        }
        proof {
            assert(record@.attrs.skip(n as int) =~= Seq::<AddressAttrView>::empty());
        }
        Ok(out)
    }
}

/// Law: a 4-byte payload tagged IPv4 parses to the four octets in input
/// order; any other length tagged IPv4 fails.
pub proof fn lemma_parse_ip_v4(ip: Seq<u8>, family: u8)
    requires
        family as u16 == AF_INET,
    ensures
        ip.len() == 4 ==> parse_ip_spec(ip, family) == Ok::<IpAddress, DecodeErrorView>(
            IpAddress::V4(ip[0], ip[1], ip[2], ip[3]),
        ),
        ip.len() != 4 ==> parse_ip_spec(ip, family) == Err::<IpAddress, DecodeErrorView>(
            DecodeErrorView::InvalidAddressLength { addr: ip, expected: 4 },
        ),
{
}

/// Law: a 16-byte payload tagged IPv6 parses to eight 16-bit groups, each
/// assembled big-endian from two consecutive octets; any other length
/// tagged IPv6 fails.
pub proof fn lemma_parse_ip_v6(ip: Seq<u8>, family: u8)
    requires
        family as u16 == AF_INET6,
    ensures
        ip.len() == 16 ==> parse_ip_spec(ip, family) == Ok::<IpAddress, DecodeErrorView>(
            IpAddress::V6(
                v6_group(ip, 0),
                v6_group(ip, 1),
                v6_group(ip, 2),
                v6_group(ip, 3),
                v6_group(ip, 4),
                v6_group(ip, 5),
                v6_group(ip, 6),
                v6_group(ip, 7),
            ),
        ),
        ip.len() != 16 ==> parse_ip_spec(ip, family) == Err::<IpAddress, DecodeErrorView>(
            DecodeErrorView::InvalidAddressLength { addr: ip, expected: 16 },
        ),
{
}

/// Law: a family tag outside IPv4 and IPv6 never parses, whatever the
/// payload length.
pub proof fn lemma_parse_ip_unknown_family(ip: Seq<u8>, family: u8)
    requires
        family as u16 != AF_INET,
        family as u16 != AF_INET6,
    ensures
        parse_ip_spec(ip, family) is Err,
{
}

proof fn lemma_decode_attrs_all_ignored(cur: AddressView, family: u8, attrs: Seq<AddressAttrView>)
    requires
        forall|i: int| 0 <= i < attrs.len() ==> is_ignored_attr(#[trigger] attrs[i]),
    ensures
        decode_attrs(cur, family, attrs) == Ok::<AddressView, DecodeErrorView>(cur),
    decreases attrs.len(),
{
    if attrs.len() > 0 {
        assert(is_ignored_attr(attrs[0]));
        lemma_decode_attrs_all_ignored(cur, family, attrs.drop_first());
    }
}

/// Law: a record whose attributes carry no address, broadcast, label or
/// flags decodes to the family-correct defaults, with the header's scope
/// and prefix length copied through unchanged.
pub proof fn lemma_decode_defaults(record: AddressRecordView)
    requires
        forall|i: int| 0 <= i < record.attrs.len() ==> is_ignored_attr(#[trigger] record.attrs[i]),
    ensures
        decode_spec(record) == Ok::<AddressView, DecodeErrorView>(initial_address(record.header)),
{
    lemma_decode_attrs_all_ignored(initial_address(record.header), record.header.family, record.attrs);
}

proof fn lemma_decode_attrs_ignored_insert(
    cur: AddressView,
    family: u8,
    attrs: Seq<AddressAttrView>,
    i: int,
    attr: AddressAttrView,
)
    requires
        0 <= i <= attrs.len(),
        is_ignored_attr(attr),
    ensures
        decode_attrs(cur, family, attrs.insert(i, attr)) == decode_attrs(cur, family, attrs),
    decreases i,
{
    let inserted = attrs.insert(i, attr);
    if i == 0 {
        assert(inserted.drop_first() =~= attrs);
    } else {
        assert(inserted[0] == attrs[0]);
        match apply_attr(cur, family, attrs[0]) {
            Ok(next) => {
                assert(inserted.drop_first() =~= attrs.drop_first().insert(i - 1, attr));
                lemma_decode_attrs_ignored_insert(next, family, attrs.drop_first(), i - 1, attr);
            },
            Err(_) => {},
        }
    }
}

/// Law: inserting an unrecognized (or cache-info) attribute anywhere in a
/// record changes nothing about what the record decodes to — the decoder
/// never fails on, and is never influenced by, an attribute kind it does
/// not know.
pub proof fn lemma_decode_ignores_unrecognized(
    record: AddressRecordView,
    i: int,
    attr: AddressAttrView,
)
    requires
        0 <= i <= record.attrs.len(),
        is_ignored_attr(attr),
    ensures
        decode_spec(
            AddressRecordView { header: record.header, attrs: record.attrs.insert(i, attr) },
        ) == decode_spec(record),
{
    lemma_decode_attrs_ignored_insert(
        initial_address(record.header),
        record.header.family,
        record.attrs,
        i,
        attr,
    );
}

} // verus!
