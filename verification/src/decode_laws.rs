//! What holds of every packet that the decoder accepts or refuses.

use crate::abi::{Abi, InHeader, Record};
use crate::argument::{
    after_name, first_name, has_nul, is_first_nul, lemma_first_nul_unique,
    lemma_has_nul_gives_first, nul_index,
};
use crate::error::HEADER_SIZE;
use crate::opcode::Opcode;
use crate::request::{
    name_count, record_size, spec_consumed, spec_decode, spec_parse, takes_tail,
};
use vstd::prelude::*;

verus! {

/// True if `field` is a stretch of `packet` that starts at or behind `from`
/// and ends at or before `to`.
pub open spec fn lies_within(field: Seq<u8>, packet: Seq<u8>, from: int, to: int) -> bool {
    exists|start: int|
        from <= start && start + field.len() <= to && field == #[trigger] packet.subrange(
            start,
            start + field.len(),
        )
}

/// The views into the packet that the operation `op` holds when it is read
/// from `s`, by what follows the record of `op`: names, trailing data or
/// both.
pub open spec fn spec_byte_fields(op: Opcode, s: Seq<u8>, abi: Abi) -> Seq<Seq<u8>> {
    let names = s.skip(record_size(op, abi) as int);
    if name_count(op) == 0 {
        if takes_tail(op) {
            seq![names]
        } else {
            seq![]
        }
    } else if name_count(op) == 1 {
        if takes_tail(op) {
            seq![first_name(names), after_name(names)]
        } else {
            seq![first_name(names)]
        }
    } else {
        seq![first_name(names), first_name(after_name(names))]
    }
}

/// Cutting a sequence short keeps its first name as long as the cut lies
/// behind the NUL that ends the name, and loses it otherwise.
pub proof fn lemma_name_of_prefix(s: Seq<u8>, n: int)
    requires
        0 <= n <= s.len(),
    ensures
        has_nul(s.take(n)) <==> has_nul(s) && nul_index(s) < n,
        has_nul(s.take(n)) ==> nul_index(s.take(n)) == nul_index(s),
        has_nul(s.take(n)) ==> first_name(s.take(n)) == first_name(s),
        has_nul(s.take(n)) ==> after_name(s.take(n)) == after_name(s).take(
            n - nul_index(s) - 1,
        ),
{
    let p = s.take(n);
    if has_nul(p) {
        lemma_has_nul_gives_first(p);
        let k = nul_index(p);
        assert(p[k] == s[k]);
        assert forall|j: int| 0 <= j < k implies s[j] != 0 by {
            assert(p[j] == s[j]);
        }
        assert(is_first_nul(s, k));
        lemma_first_nul_unique(s, k);
        assert(first_name(p) =~= first_name(s));
        assert(after_name(p) =~= after_name(s).take(n - k - 1));
    }
    if has_nul(s) && nul_index(s) < n {
        lemma_has_nul_gives_first(s);
        let k = nul_index(s);
        assert(p[k] == s[k]);
    }
}

/// The parser of `op` accepts the first `n` bytes of `s` exactly if what it
/// consumes from `s` lies within those bytes.
pub proof fn lemma_parse_accepts_iff(op: Opcode, s: Seq<u8>, n: int, abi: Abi)
    requires
        0 <= n <= s.len(),
    ensures
        spec_parse(op, s.take(n), abi) is Some <==> (spec_consumed(op, s, abi) matches Some(k)
            && k <= n),
{
    let r = record_size(op, abi) as int;
    if s.len() >= r && name_count(op) >= 1 {
        let names = s.skip(r);
        if has_nul(names) {
            lemma_has_nul_gives_first(names);
            if has_nul(after_name(names)) {
                lemma_has_nul_gives_first(after_name(names));
            }
        }
        if r <= n {
            assert(s.take(n).skip(r) =~= names.take(n - r));
            lemma_name_of_prefix(names, n - r);
            if has_nul(names) && nul_index(names) < n - r {
                lemma_name_of_prefix(after_name(names), n - r - nul_index(names) - 1);
            }
        }
    }
}

/// The views into the packet that a parsed operation holds are those that
/// `spec_byte_fields` names.
pub proof fn lemma_byte_fields_by_shape(op: Opcode, s: Seq<u8>, abi: Abi)
    requires
        spec_parse(op, s, abi) is Some,
    ensures
        spec_parse(op, s, abi)->0.byte_fields() == spec_byte_fields(op, s, abi),
        spec_parse(op, s, abi)->0.opcode() == op,
{
    assert(op is Lookup || op is Forget || op is GetAttr || op is SetAttr || op is ReadLink
        || op is SymLink || op is MkNod || op is MkDir || op is Unlink || op is RmDir
        || op is Rename || op is Link || op is Open || op is Read || op is Write || op is StatFs
        || op is Release || op is FSync || op is SetXAttr || op is GetXAttr || op is ListXAttr
        || op is RemoveXAttr || op is Flush || op is Init || op is OpenDir || op is ReadDir
        || op is ReleaseDir || op is FSyncDir || op is GetLk || op is SetLk || op is SetLkW
        || op is Access || op is Create || op is Interrupt || op is BMap || op is Destroy
        || op is SetVolName || op is GetXTimes || op is Exchange);
}

/// Every view into the packet that a parsed operation holds is a stretch
/// of the bytes that it was parsed from.
pub proof fn lemma_parsed_fields_within(op: Opcode, s: Seq<u8>, abi: Abi, i: int)
    requires
        spec_parse(op, s, abi) is Some,
        0 <= i < spec_byte_fields(op, s, abi).len(),
    ensures
        lies_within(spec_byte_fields(op, s, abi)[i], s, 0, s.len() as int),
{
    let r = record_size(op, abi) as int;
    let names = s.skip(r);
    let field = spec_byte_fields(op, s, abi)[i];
    if name_count(op) == 0 {
        assert(field == s.subrange(r, r + field.len()));
    } else {
        lemma_has_nul_gives_first(names);
        let k = nul_index(names);
        let rest = after_name(names);
        if i == 0 {
            assert(field =~= s.subrange(r, r + field.len()));
        } else if name_count(op) == 1 {
            assert(field =~= s.subrange(r + k + 1, r + k + 1 + field.len()));
        } else {
            lemma_has_nul_gives_first(rest);
            assert(field =~= s.subrange(r + k + 1, r + k + 1 + field.len()));
        }
    }
}

/// Decoding succeeds exactly on the packets that hold a whole header, are
/// at least as long as the header announces, name a known opcode, and in
/// which what the parser of that opcode consumes ends at or before the
/// announced length.
pub proof fn lemma_decode_succeeds_iff(packet: Seq<u8>, abi: Abi)
    ensures
        spec_decode(packet, abi) is Ok <==> {
            let header = InHeader::from_wire(packet, abi);
            &&& packet.len() >= HEADER_SIZE
            &&& header.len <= packet.len()
            &&& Opcode::of(header.opcode, abi.macos) matches Some(opcode)
            &&& spec_consumed(opcode, packet.skip(HEADER_SIZE as int), abi) matches Some(k)
            &&& HEADER_SIZE + k <= header.len
        },
{
    let header = InHeader::from_wire(packet, abi);
    if packet.len() >= HEADER_SIZE && header.len <= packet.len() && header.len >= HEADER_SIZE {
        if let Some(opcode) = Opcode::of(header.opcode, abi.macos) {
            let arguments = packet.skip(HEADER_SIZE as int);
            let n = header.len - HEADER_SIZE;
            assert(packet.subrange(HEADER_SIZE as int, header.len as int) =~= arguments.take(n));
            lemma_parse_accepts_iff(opcode, arguments, n, abi);
        }
    }
}

/// In a decoded request the operation is that of the opcode in the header,
/// and every name and all trailing data of the operation is a stretch of
/// the packet between the end of the header and the announced length.
pub proof fn lemma_decoded_fields_inside_packet(packet: Seq<u8>, abi: Abi)
    requires
        spec_decode(packet, abi) is Ok,
    ensures
        ({
            let request = spec_decode(packet, abi)->Ok_0;
            &&& HEADER_SIZE <= request.header.len <= packet.len()
            &&& Opcode::of(request.header.opcode, abi.macos) == Some(request.operation.opcode())
            &&& forall|i: int|
                0 <= i < request.operation.byte_fields().len() ==> lies_within(
                    #[trigger] request.operation.byte_fields()[i],
                    packet,
                    HEADER_SIZE as int,
                    request.header.len as int,
                )
        }),
{
    let request = spec_decode(packet, abi)->Ok_0;
    let len = request.header.len as int;
    let opcode = Opcode::of(request.header.opcode, abi.macos)->0;
    let arguments = packet.subrange(HEADER_SIZE as int, len);
    lemma_byte_fields_by_shape(opcode, arguments, abi);
    assert forall|i: int| 0 <= i < request.operation.byte_fields().len() implies lies_within(
        #[trigger] request.operation.byte_fields()[i],
        packet,
        HEADER_SIZE as int,
        len,
    ) by {
        let field = request.operation.byte_fields()[i];
        lemma_parsed_fields_within(opcode, arguments, abi, i);
        let start = choose|start: int|
            0 <= start && start + field.len() <= arguments.len() && field
                == #[trigger] arguments.subrange(start, start + field.len());
        assert(field =~= packet.subrange(
            HEADER_SIZE + start,
            HEADER_SIZE + start + field.len(),
        ));
    }
}

} // verus!
