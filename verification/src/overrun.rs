//! Following the headers of a tar file, to see where its positions can no
//! longer be counted.
//!
//! A tar file is made of blocks. A header fills one block and says how many
//! bytes follow it, in blocks of their own; the next header stands behind them.
//! Two kinds of headers only describe the next file: long names, and extended
//! records, one of which can replace the size in that file's header. Behind the
//! header of a sparse file stand further blocks that its size does not count,
//! as long as each says that one more follows.

use crate::path::bytes_eq;
use crate::text;
use vstd::prelude::*;
use vstd::slice::slice_subrange;

verus! {

/// The size of a block.
pub const BLOCK: usize = 512;

// ----------------------------------------------------------------------------
// Headers
// ----------------------------------------------------------------------------

/// The bytes by which a header says that it is of the GNU format.
pub open spec fn gnu_magic() -> Seq<u8> {
    seq![0x75u8, 0x73u8, 0x74u8, 0x61u8, 0x72u8, 0x20u8, 0x20u8, 0u8]
}

/// The bytes by which a header says that it is of the POSIX format.
pub open spec fn ustar_magic() -> Seq<u8> {
    seq![0x75u8, 0x73u8, 0x74u8, 0x61u8, 0x72u8, 0u8, 0x30u8, 0x30u8]
}

/// Whether a header is of the GNU format.
pub open spec fn is_gnu(header: Seq<u8>) -> bool {
    header.subrange(257, 265) == gnu_magic()
}

/// Whether a header is of a format that has descriptions of the next file.
pub open spec fn is_known(header: Seq<u8>) -> bool {
    is_gnu(header) || header.subrange(257, 265) == ustar_magic()
}

/// The byte that says of what kind a header is.
pub open spec fn kind(header: Seq<u8>) -> u8 {
    header[156]
}

/// Whether a header is of one of the kinds that describe the next file, or all
/// that follow.
pub open spec fn has_describing_kind(header: Seq<u8>) -> bool {
    kind(header) == 0x4c || kind(header) == 0x4b || kind(header) == 0x78 || kind(header) == 0x67
}

/// Whether a header holds a long name of the next file.
pub open spec fn is_long_name(header: Seq<u8>) -> bool {
    is_known(header) && (kind(header) == 0x4c || kind(header) == 0x4b)
}

/// Whether a header holds extended records of the next file.
pub open spec fn is_pax(header: Seq<u8>) -> bool {
    is_known(header) && kind(header) == 0x78
}

/// Whether a header is that of a sparse file behind which one more block stands.
pub open spec fn is_extended_sparse(header: Seq<u8>) -> bool {
    is_gnu(header) && kind(header) == 0x53 && header[482] == 1
}

/// Whether the bytes by which a header names its format are these.
fn has_magic(header: &[u8], magic: &[u8]) -> (out: bool)
    requires
        header@.len() == BLOCK,
    ensures
        out == (header@.subrange(257, 265) == magic@),
{
    bytes_eq(slice_subrange(header, 257, 265), magic)
}

/// Whether a header is of the GNU format.
fn gnu(header: &[u8]) -> (out: bool)
    requires
        header@.len() == BLOCK,
    ensures
        out == is_gnu(header@),
{
    let magic: [u8; 8] = [0x75, 0x73, 0x74, 0x61, 0x72, 0x20, 0x20, 0];
    assert(magic@ =~= gnu_magic());
    has_magic(header, &magic)
}

/// Whether a header is of a format that has descriptions of the next file.
fn known(header: &[u8]) -> (out: bool)
    requires
        header@.len() == BLOCK,
    ensures
        out == is_known(header@),
{
    let magic: [u8; 8] = [0x75, 0x73, 0x74, 0x61, 0x72, 0, 0x30, 0x30];
    assert(magic@ =~= ustar_magic());
    gnu(header) || has_magic(header, &magic)
}

/// Whether a header is of one of the kinds that describe the next file, or all
/// that follow.
fn describing_kind(header: &[u8]) -> (out: bool)
    requires
        header@.len() == BLOCK,
    ensures
        out == has_describing_kind(header@),
{
    let k = header[156];
    k == 0x4c || k == 0x4b || k == 0x78 || k == 0x67
}

// ----------------------------------------------------------------------------
// Sizes
// ----------------------------------------------------------------------------

/// The size that `Header::entry_size` reads in a header, if there is one.
pub uninterp spec fn entry_size(header: Seq<u8>) -> Option<u64>;

/// `tar::Header::entry_size` of the header that `tar::Header::from_byte_slice`
/// sees in a block. Not proved here: that the result depends on the bytes alone.
#[verifier::external_body]
fn read_entry_size(header: &[u8]) -> (out: Option<u64>)
    requires
        header@.len() == BLOCK,
    ensures
        out == entry_size(header@),
{
    tar::Header::from_byte_slice(header).entry_size().ok()
}

/// One extended record, as far as it could be read.
#[derive(Debug, PartialEq, Eq)]
pub enum PaxRecord {
    /// Its key and its value, each if it is text.
    Pair { key: Option<String>, value: Option<String> },
    /// It has not the form of a record.
    Malformed,
}

/// What a [`PaxRecord`] stands for.
pub enum PaxRecordView {
    Pair { key: Option<Seq<char>>, value: Option<Seq<char>> },
    Malformed,
}

impl DeepView for PaxRecord {
    type V = PaxRecordView;

    open spec fn deep_view(&self) -> PaxRecordView {
        match self {
            PaxRecord::Pair { key, value } => PaxRecordView::Pair {
                key: key.deep_view(),
                value: value.deep_view(),
            },
            PaxRecord::Malformed => PaxRecordView::Malformed,
        }
    }
}

/// The records that `PaxExtensions` reads in bytes.
pub uninterp spec fn pax_records(bytes: Seq<u8>) -> Seq<PaxRecordView>;

/// `tar::PaxExtensions`, each record by its `key` and `value`. Not proved here:
/// that the result depends on the bytes alone.
#[verifier::external_body]
fn read_pax_records(bytes: &[u8]) -> (out: Vec<PaxRecord>)
    ensures
        out.deep_view() == pax_records(bytes@),
{
    tar::PaxExtensions::new(bytes).map(|record| match record {
        Ok(r) => PaxRecord::Pair {
            key: r.key().ok().map(|k| k.to_string()),
            value: r.value().ok().map(|v| v.to_string()),
        },
        Err(_) => PaxRecord::Malformed,
    }).collect()
}

/// The size that the records from index `i` on give: the number in the first
/// one with the key `size`, unless a malformed one stands before it.
pub open spec fn size_record(records: Seq<PaxRecordView>, i: nat) -> Option<u64>
    decreases records.len() - i,
{
    if i >= records.len() {
        None
    } else {
        match records[i as int] {
            PaxRecordView::Malformed => None,
            PaxRecordView::Pair { key, value } => if key != Some("size"@) {
                size_record(records, i + 1)
            } else {
                match value {
                    None => None,
                    Some(v) => match text::parse_unsigned(v) {
                        Some(n) => if n <= u64::MAX {
                            Some(n as u64)
                        } else {
                            None
                        },
                        None => None,
                    },
                }
            },
        }
    }
}

/// Finds the size that extended records give.
pub fn find_size_record(records: &Vec<PaxRecord>) -> (out: Option<u64>)
    ensures
        out == size_record(records.deep_view(), 0),
{
    let mut i: usize = 0;
    while i < records.len()
        invariant
            i <= records.len(),
            size_record(records.deep_view(), 0) == size_record(records.deep_view(), i as nat),
        decreases records.len() - i,
    {
        assert(records.deep_view()[i as int] == records[i as int].deep_view());
        match &records[i] {
            PaxRecord::Malformed => {
                return None;
            },
            PaxRecord::Pair { key, value } => {
                let named = match key {
                    Some(k) => text::str_eq(k.as_str(), "size"),
                    None => false,
                };
                if named {
                    return match value {
                        Some(v) => text::parse_u64(v.as_str()),
                        None => None,
                    };
                }
            },
        }
        i += 1;
    }
    None
}

/// How many bytes follow a header, where `replaced` is the size that extended
/// records before it give. Such a size does not count for headers that describe
/// the next file.
pub open spec fn size_behind(header: Seq<u8>, replaced: Option<u64>) -> Option<u64> {
    match entry_size(header) {
        None => None,
        Some(own) => match replaced {
            Some(size) => if has_describing_kind(header) {
                Some(own)
            } else {
                Some(size)
            },
            None => Some(own),
        },
    }
}

/// How many bytes the blocks have that `size` bytes fill.
pub open spec fn rounded(size: nat) -> nat {
    (size + 511) / 512 * 512
}

// ----------------------------------------------------------------------------
// Positions
// ----------------------------------------------------------------------------

/// Whether the first `n` of the blocks that stand at `at` are there, and each
/// says that one more follows.
pub open spec fn go_on(data: Seq<u8>, at: nat, n: nat) -> bool {
    forall|j: int|
        0 <= j < n ==> {
            &&& at + BLOCK * (j + 1) <= data.len()
            &&& #[trigger] data[at + BLOCK * j + 504] == 1
        }
}

/// How many blocks stand at `at`, of which each but the last says that one more
/// follows, if they are all there.
pub open spec fn chain(data: Seq<u8>, at: nat) -> Option<nat>
    decreases data.len() - at,
{
    if at + BLOCK > data.len() {
        None
    } else if data[at as int + 504] != 1 {
        Some(1)
    } else {
        match chain(data, at + BLOCK as nat) {
            Some(n) => Some(n + 1),
            None => None,
        }
    }
}

/// How many blocks can be counted on from the position `next`.
pub open spec fn room(next: nat) -> nat {
    ((u64::MAX - next) / 512) as nat
}

/// Whether more blocks stand at `at` than can be counted on from `next`. Where
/// the data is not complete, one may stand behind its end.
pub open spec fn overflows(data: Seq<u8>, complete: bool, at: nat, next: nat) -> bool {
    &&& go_on(data, at, room(next))
    &&& !complete || at + BLOCK * (room(next) + 1) <= data.len()
}

/// The size that the extended records in the `size` bytes at `at` give.
pub open spec fn replacement(data: Seq<u8>, at: nat, size: nat) -> Option<u64> {
    if at + size <= data.len() {
        size_record(pax_records(data.subrange(at as int, (at + size) as int)), 0)
    } else {
        None
    }
}

/// Where the header stands that follows the one at `at`, if the blocks between
/// the two are there, where `next` is the end of the bytes that its size counts.
pub open spec fn following(data: Seq<u8>, at: nat, next: nat) -> Option<nat> {
    let header = data.subrange(at as int, at + BLOCK);
    if is_extended_sparse(header) {
        match chain(data, at + BLOCK as nat) {
            Some(n) => Some(next + BLOCK as nat * n),
            None => None,
        }
    } else {
        Some(next)
    }
}

/// The size that extended records give for the header that follows the one at
/// `at`, of which `size` bytes follow: those in it, or behind a long name those
/// for it.
pub open spec fn replaced_behind(
    data: Seq<u8>,
    at: nat,
    size: nat,
    replaced: Option<u64>,
) -> Option<u64> {
    let header = data.subrange(at as int, at + BLOCK);
    if is_long_name(header) {
        replaced
    } else if is_pax(header) {
        replacement(data, at + BLOCK as nat, size)
    } else {
        None
    }
}

/// Where, from the header at `at` on, the first block stands that cannot be
/// counted, if there is one: headers are followed as far as there are any.
/// `replaced` is the size that extended records of the header at `at` give.
pub open spec fn overrun_from(
    data: Seq<u8>,
    complete: bool,
    at: nat,
    replaced: Option<u64>,
) -> Option<nat>
    decreases data.len() - at,
{
    if at + BLOCK > data.len() {
        None
    } else {
        let header = data.subrange(at as int, at + BLOCK);
        let body = at + BLOCK as nat;
        match size_behind(header, replaced) {
            None => None,
            Some(size) => {
                let next = body + rounded(size as nat);
                if size + 511 > u64::MAX || next > u64::MAX {
                    None
                } else if is_extended_sparse(header) && overflows(data, complete, body, next) {
                    Some(body + BLOCK as nat * room(next))
                } else {
                    match following(data, at, next) {
                        Some(there) => if there <= data.len() {
                            overrun_from(
                                data,
                                complete,
                                there,
                                replaced_behind(data, at, size as nat, replaced),
                            )
                        } else {
                            None
                        },
                        None => None,
                    }
                }
            },
        }
    }
}

/// Where in a tar file the first block stands that cannot be counted, if there
/// is one.
pub open spec fn overrun(data: Seq<u8>, complete: bool) -> Option<nat> {
    overrun_from(data, complete, 0, None)
}

/// What stands behind the header of a sparse file.
enum Behind {
    /// More blocks than can be counted; the first of those stands here.
    TooMany(usize),
    /// Blocks that are not all there.
    Cut,
    /// Blocks that end, so that the next header stands here.
    Header(u64),
}

/// Follows the blocks that stand at `at`, with the next header at `next` if
/// there were none.
fn follow(data: &Vec<u8>, complete: bool, at: usize, next: u64) -> (out: Behind)
    requires
        at <= data.len(),
    ensures
        match out {
            Behind::TooMany(block) => overflows(data@, complete, at as nat, next as nat) && block
                == at + BLOCK * room(next as nat) && block <= data.len(),
            Behind::Cut => !overflows(data@, complete, at as nat, next as nat) && chain(
                data@,
                at as nat,
            ) is None,
            Behind::Header(position) => !overflows(data@, complete, at as nat, next as nat)
                && match chain(data@, at as nat) {
                Some(n) => position == next + BLOCK * n,
                None => false,
            },
        },
{
    let mut block: usize = at;
    let mut position: u64 = next;
    let ghost mut n: nat = 0;
    loop
        invariant
            block == at + BLOCK * n,
            block <= data.len(),
            position == next + BLOCK * n,
            n <= room(next as nat),
            go_on(data@, at as nat, n),
            chain(data@, at as nat) == (match chain(data@, block as nat) {
                Some(m) => Some(m + n),
                None => None,
            }),
        decreases data.len() - block,
    {
        if u64::MAX - position < 512 {
            assert(n == room(next as nat));
            if !complete || data.len() - block >= BLOCK {
                return Behind::TooMany(block);
            }
            return Behind::Cut;
        }
        assert(n < room(next as nat));
        if data.len() - block < BLOCK {
            assert(!go_on(data@, at as nat, room(next as nat))) by {
                if go_on(data@, at as nat, room(next as nat)) {
                    assert(data@[at + BLOCK * (n as int) + 504] == 1);
                }
            }
            return Behind::Cut;
        }
        if data[block + 504] != 1 {
            assert(!go_on(data@, at as nat, room(next as nat))) by {
                if go_on(data@, at as nat, room(next as nat)) {
                    assert(data@[at + BLOCK * (n as int) + 504] == 1);
                }
            }
            return Behind::Header(position + 512);
        }
        block += BLOCK;
        position += 512;
        proof {
            n = n + 1;
        }
    }
}

/// Finds where in a tar file the first block stands that cannot be counted. The
/// data is complete if nothing can stand behind it.
pub fn find_overrun(data: &Vec<u8>, complete: bool) -> (out: Option<usize>)
    ensures
        match overrun(data@, complete) {
            Some(block) => out == Some(block as usize) && block <= data.len(),
            None => out is None,
        },
{
    let mut at: usize = 0;
    let mut replaced: Option<u64> = None;
    while data.len() - at >= BLOCK
        invariant
            at <= data.len(),
            overrun(data@, complete) == overrun_from(data@, complete, at as nat, replaced),
        decreases data.len() - at,
    {
        let header = slice_subrange(data.as_slice(), at, at + BLOCK);
        let body: usize = at + BLOCK;
        let size: u64 = match read_entry_size(header) {
            None => {
                return None;
            },
            Some(own) => match replaced {
                Some(size) => if describing_kind(header) {
                    own
                } else {
                    size
                },
                None => own,
            },
        };
        if size > u64::MAX - 511 {
            return None;
        }
        let padded: u64 = (size + 511) / 512 * 512;
        if padded > u64::MAX - body as u64 {
            return None;
        }
        let next: u64 = body as u64 + padded;
        let k = header[156];
        let mut there: u64 = next;
        if k == 0x53 && gnu(header) && header[482] == 1 {
            match follow(data, complete, body, next) {
                Behind::TooMany(block) => {
                    return Some(block);
                },
                Behind::Cut => {
                    return None;
                },
                Behind::Header(position) => {
                    there = position;
                },
            }
        }
        if there > data.len() as u64 {
            return None;
        }
        let describes = known(header);
        if describes && k == 0x78 {
            let records = slice_subrange(data.as_slice(), body, body + size as usize);
            replaced = find_size_record(&read_pax_records(records));
        } else if !(describes && (k == 0x4c || k == 0x4b)) {
            replaced = None;
        }
        at = there as usize;
    }
    None
}

// ----------------------------------------------------------------------------
// Laws
// ----------------------------------------------------------------------------

/// A tar file without a sparse file behind whose header one more block stands
/// can be counted to its end.
pub proof fn law_plain_data_is_counted(
    data: Seq<u8>,
    complete: bool,
    at: nat,
    replaced: Option<u64>,
)
    requires
        forall|i: int|
            0 <= i && i + BLOCK <= data.len() ==> !is_extended_sparse(
                #[trigger] data.subrange(i, i + BLOCK),
            ),
    ensures
        overrun_from(data, complete, at, replaced) is None,
    decreases data.len() - at,
{
    if at + BLOCK <= data.len() {
        let header = data.subrange(at as int, at + BLOCK);
        if let Some(size) = size_behind(header, replaced) {
            let next = at + BLOCK as nat + rounded(size as nat);
            if next <= data.len() {
                law_plain_data_is_counted(
                    data,
                    complete,
                    next,
                    replaced_behind(data, at, size as nat, replaced),
                );
            }
        }
    }
}

/// Sizes that leave room for every block of the data can be counted: from a
/// position that far below the largest one, complete data does not overflow.
pub proof fn law_room_prevents_overflow(data: Seq<u8>, at: nat, next: nat)
    requires
        next + data.len() + BLOCK <= u64::MAX,
    ensures
        !overflows(data, true, at, next),
{
    assert(room(next) * 512 + 512 > u64::MAX - next);
}

/// Blocks are filled up: what `size` bytes fill is the least number of whole
/// blocks that holds them.
pub proof fn law_sizes_are_rounded_up(size: nat)
    ensures
        rounded(size) % 512 == 0,
        size <= rounded(size) < size + 512,
{
}

/// A header that is not that of a sparse file with more blocks is followed by
/// the one behind the blocks that its bytes fill. Their number is the one in it,
/// unless extended records have replaced it; but those do not count for a header
/// that describes others itself. Behind a long name they still count, behind
/// extended records the new ones do, and behind anything else none.
pub proof fn law_headers_are_followed(
    data: Seq<u8>,
    complete: bool,
    at: nat,
    replaced: Option<u64>,
    own: u64,
    filled: nat,
)
    requires
        at + 512 <= data.len(),
        entry_size(data.subrange(at as int, at as int + 512)) == Some(own),
        ({
            let k = data[at as int + 156];
            let describes = k == 0x4c || k == 0x4b || k == 0x78 || k == 0x67;
            let size = if replaced is Some && !describes {
                replaced->0
            } else {
                own
            };
            &&& filled % 512 == 0
            &&& size <= filled < size + 512
        }),
        at + 512 + filled <= data.len(),
        data.len() + 1024 <= u64::MAX,
        data[at as int + 156] != 0x53 || data.subrange(at as int + 257, at as int + 265) != gnu_magic()
            || data[at as int + 482] != 1,
    ensures
        overrun_from(data, complete, at, replaced) == overrun_from(
            data,
            complete,
            at + 512nat + filled,
            still_replaced(data, at, replaced, own),
        ),
{
    let header = data.subrange(at as int, at + BLOCK);
    assert(header.subrange(257, 265) =~= data.subrange(at as int + 257, at as int + 265));
    let size = size_behind(header, replaced)->0;
    law_sizes_are_rounded_up(size as nat);
    assert(rounded(size as nat) == filled);
}

/// The size that extended records give for the header behind the one at `at`,
/// which has `own` bytes: after a long name the one before it, after extended
/// records the one in them, and else none.
pub open spec fn still_replaced(
    data: Seq<u8>,
    at: nat,
    replaced: Option<u64>,
    own: u64,
) -> Option<u64> {
    let magic = data.subrange(at as int + 257, at as int + 265);
    let known = magic == gnu_magic() || magic == ustar_magic();
    let k = data[at as int + 156];
    if known && (k == 0x4c || k == 0x4b) {
        replaced
    } else if known && k == 0x78 {
        size_record(pax_records(data.subrange(at as int + 512, at as int + 512 + own)), 0)
    } else {
        None
    }
}

/// The formats of headers are told apart by these bytes: the word that both
/// share, and what follows it.
pub proof fn law_formats_are_told_apart()
    ensures
        gnu_magic() == seq!['u', 's', 't', 'a', 'r', ' ', ' ', '\0'].map_values(|c: char| c as u8),
        ustar_magic() == seq!['u', 's', 't', 'a', 'r', '\0', '0', '0'].map_values(
            |c: char| c as u8,
        ),
{
    assert(gnu_magic() =~= seq!['u', 's', 't', 'a', 'r', ' ', ' ', '\0'].map_values(
        |c: char| c as u8,
    ));
    assert(ustar_magic() =~= seq!['u', 's', 't', 'a', 'r', '\0', '0', '0'].map_values(
        |c: char| c as u8,
    ));
}

/// Behind the header of a sparse file at `at`, of which the counted bytes end at
/// `next`, stand `n` more blocks, each but the last of which says that one more
/// follows. If the position behind them can be counted, the next header stands
/// there, and no extended record counts for it.
pub proof fn law_sparse_file_is_followed(
    data: Seq<u8>,
    complete: bool,
    at: nat,
    replaced: Option<u64>,
    size: u64,
    n: nat,
)
    requires
        at + 512 <= data.len(),
        is_extended_sparse(data.subrange(at as int, at + BLOCK)),
        size_behind(data.subrange(at as int, at + BLOCK), replaced) == Some(size),
        n > 0,
        at + 512 + 512 * n <= data.len(),
        go_on(data, at + 512nat, (n - 1) as nat),
        data[at + 512 + 512 * (n - 1) + 504] != 1,
        at + 512 + rounded(size as nat) + 512 * n <= data.len(),
        data.len() + 1024 <= u64::MAX,
    ensures
        overrun_from(data, complete, at, replaced) == overrun_from(
            data,
            complete,
            (at + 512 + rounded(size as nat) + 512 * n) as nat,
            None,
        ),
{
    let body = at + 512nat;
    let next = body + rounded(size as nat);
    law_sizes_are_rounded_up(size as nat);
    lemma_chain(data, body, n);
    assert(room(next) >= n) by {
        assert(u64::MAX - next >= 512 * n);
    }
    assert(!go_on(data, body, room(next))) by {
        if go_on(data, body, room(next)) {
            assert(data[body + BLOCK * (n - 1) + 504] == 1);
        }
    }
}

proof fn lemma_chain(data: Seq<u8>, at: nat, n: nat)
    requires
        n > 0,
        at + BLOCK * n <= data.len(),
        go_on(data, at, (n - 1) as nat),
        data[at + BLOCK * (n - 1) + 504] != 1,
    ensures
        chain(data, at) == Some(n),
    decreases n,
{
    if n > 1 {
        assert(data[at + BLOCK * 0 + 504] == 1);
        let rest = at + BLOCK as nat;
        assert forall|j: int| 0 <= j < n - 2 implies rest + BLOCK * (j + 1) <= data.len()
            && #[trigger] data[rest + BLOCK * j + 504] == 1 by {
            assert(data[at + BLOCK * (j + 1) + 504] == 1);
            assert(at + BLOCK * (j + 1) + 504 == rest + BLOCK * j + 504);
        }
        assert(rest + BLOCK * (n - 2) + 504 == at + BLOCK * (n - 1) + 504);
        lemma_chain(data, rest, (n - 1) as nat);
    }
}

/// Behind the header of a sparse file at `at`, of which the counted bytes end at
/// `next`, one block too many stands: `m` of them can be counted, each says that
/// one more follows, and that one is there. It is the one that is named.
pub proof fn law_block_too_many_is_named(
    data: Seq<u8>,
    complete: bool,
    at: nat,
    replaced: Option<u64>,
    size: u64,
    m: nat,
)
    requires
        at + 512 <= data.len(),
        is_extended_sparse(data.subrange(at as int, at + BLOCK)),
        size_behind(data.subrange(at as int, at + BLOCK), replaced) == Some(size),
        size + 511 <= u64::MAX,
        go_on(data, at + 512nat, m),
        at + 512 + 512 * (m + 1) <= data.len(),
        at + 512 + rounded(size as nat) + 512 * m <= u64::MAX,
        at + 512 + rounded(size as nat) + 512 * (m + 1) > u64::MAX,
    ensures
        overrun_from(data, complete, at, replaced) == Some((at + 512 + 512 * m) as nat),
{
    let next = at + 512nat + rounded(size as nat);
    assert(room(next) == m) by {
        assert(512 * m <= u64::MAX - next < 512 * (m + 1));
    }
}

/// The size that extended records give is the number in the first one with that
/// key, as long as every one before it has the form of a record: whatever stands
/// before it under another key does not matter.
pub proof fn law_first_size_record_counts(
    records: Seq<PaxRecordView>,
    i: nat,
    from: nat,
    value: Option<Seq<char>>,
)
    requires
        from <= i < records.len(),
        records[i as int] == (PaxRecordView::Pair { key: Some(seq!['s', 'i', 'z', 'e']), value }),
        forall|j: int|
            from <= j < i ==> (#[trigger] records[j] matches PaxRecordView::Pair { key, .. } && key
                != Some(seq!['s', 'i', 'z', 'e'])),
    ensures
        size_record(records, from) == (match value {
            Some(v) => match text::parse_unsigned(v) {
                Some(n) => if n <= u64::MAX {
                    Some(n as u64)
                } else {
                    None
                },
                None => None,
            },
            None => None,
        }),
    decreases i - from,
{
    reveal_strlit("size");
    assert("size"@ =~= seq!['s', 'i', 'z', 'e']);
    if from < i {
        law_first_size_record_counts(records, i, from + 1, value);
    }
}

/// Without such a record before the first one that has not the form of a record,
/// or before the end, there is no size.
pub proof fn law_no_size_record(records: Seq<PaxRecordView>, i: nat, from: nat)
    requires
        from <= i <= records.len(),
        i < records.len() ==> records[i as int] is Malformed,
        forall|j: int|
            from <= j < i ==> (#[trigger] records[j] matches PaxRecordView::Pair { key, .. } && key
                != Some(seq!['s', 'i', 'z', 'e'])),
    ensures
        size_record(records, from) is None,
    decreases i - from,
{
    reveal_strlit("size");
    assert("size"@ =~= seq!['s', 'i', 'z', 'e']);
    if from < i {
        law_no_size_record(records, i, from + 1);
    }
}

} // verus!
