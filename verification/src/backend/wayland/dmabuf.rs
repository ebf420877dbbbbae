//! The formats that the compositor announces in its linux-dmabuf feedback.

use vstd::prelude::*;
use zerocopy::FromBytes;

use crate::bytes::{law_eight_bytes, law_four_bytes, law_two_bytes, ByteOrder};
use crate::fourcc::{drm_fourcc_code, recognize};
use crate::negotiation::holds;

verus! {

/// One entry of the linux-dmabuf format table: a `(u32 format, u32 padding,
/// u64 modifier)`, tightly packed in native endianness.
#[derive(Clone, Copy, Debug, PartialEq, Eq)]
pub struct FormatTableEntry {
    pub format: u32,
    pub _pad: u32,
    pub modifier: u64,
}

/// The entry that sixteen bytes hold.
pub open spec fn entry_of(order: ByteOrder, record: Seq<u8>) -> FormatTableEntry {
    FormatTableEntry {
        format: order.value(record.subrange(0, 4)) as u32,
        _pad: order.value(record.subrange(4, 8)) as u32,
        modifier: order.value(record.subrange(8, 16)) as u64,
    }
}

/// The entries that a table of whole records holds.
pub open spec fn entries_of(order: ByteOrder, bytes: Seq<u8>) -> Seq<FormatTableEntry> {
    Seq::new(
        bytes.len() / 16,
        |i: int| entry_of(order, bytes.subrange(16 * i, 16 * i + 16)),
    )
}

/// Calls `zerocopy::FromBytes::ref_from_bytes_with_elems` for a slice of
/// sixteen-byte records, which any address is aligned for. Trusted: it gives the
/// `count` records that the bytes are made of, and fails exactly if the bytes are
/// more or fewer than `count` records take.
#[verifier::external_body]
fn records(bytes: &[u8], count: usize) -> (records: Option<&[[u8; 16]]>)
    ensures
        records is Some <==> bytes@.len() == 16 * count,
        records matches Some(r) ==> {
            &&& r@.len() == count
            &&& forall|i: int|
                0 <= i < count ==> (#[trigger] r@[i])@ == bytes@.subrange(16 * i, 16 * i + 16)
        },
{
    <[[u8; 16]]>::ref_from_bytes_with_elems(bytes, count).ok()
}

impl FormatTableEntry {
    /// The entry that sixteen bytes hold.
    pub fn decode(order: ByteOrder, record: &[u8; 16]) -> (entry: Self)
        ensures
            entry == entry_of(order, record@),
    {
        let bytes: &[u8] = record.as_slice();
        FormatTableEntry {
            format: order.read_u32(&bytes[0..4]),
            _pad: order.read_u32(&bytes[4..8]),
            modifier: order.read(&bytes[8..16]),
        }
    }
}

/// The compositor's linux-dmabuf format table.
pub struct DrmFormatTable {
    entries: Vec<FormatTableEntry>,
}

impl View for DrmFormatTable {
    type V = Seq<FormatTableEntry>;

    closed spec fn view(&self) -> Seq<FormatTableEntry> {
        self.entries@
    }
}

impl DrmFormatTable {
    /// The (format, modifier) entries that the bytes of a table hold; `None` if
    /// they are not a whole number of entries.
    pub fn map(order: ByteOrder, bytes: &[u8]) -> (table: Option<Self>)
        ensures
            table is Some <==> bytes@.len() % 16 == 0,
            table matches Some(t) ==> t@ == entries_of(order, bytes@),
    {
        let count: usize = bytes.len() / 16;
        let records = match records(bytes, count) {
            Some(records) => records,
            None => {
                return None;
            },
        };
        let mut entries: Vec<FormatTableEntry> = Vec::new();
        let mut i: usize = 0;
        while i < count
            invariant
                i <= count,
                count == bytes@.len() / 16,
                records@.len() == count,
                forall|i: int|
                    0 <= i < count ==> (#[trigger] records@[i])@ == bytes@.subrange(
                        16 * i,
                        16 * i + 16,
                    ),
                entries@ == entries_of(order, bytes@).take(i as int),
            decreases count - i,
        {
            entries.push(FormatTableEntry::decode(order, &records[i]));
            i += 1;
            assert(entries@ =~= entries_of(order, bytes@).take(i as int));
        }
        assert(entries@ =~= entries_of(order, bytes@));
        Some(DrmFormatTable { entries })
    }

    /// The format and modifier of the entry at `index`.
    pub fn get(&self, index: usize) -> (entry: Option<(u32, u64)>)
        ensures
            entry == (if index < self@.len() {
                Some((self@[index as int].format, self@[index as int].modifier))
            } else {
                None
            }),
    {
        if index < self.entries.len() {
            let entry = self.entries[index];
            Some((entry.format, entry.modifier))
        } else {
            None
        }
    }
}

/// One DRM format, by its code, with the compositor-advertised modifiers.
/// Populated from the linux-dmabuf feedback tranches. What the Vulkan device
/// makes of it is a matter of negotiation.
#[derive(Debug, PartialEq, Eq)]
pub struct FormatInfo {
    pub code: u32,
    /// Modifiers offered by the compositor, in feedback tranche order.
    pub modifiers: Vec<u64>,
}

/// The place of the first format with this code; the number of formats if there
/// is none.
pub open spec fn place_of(formats: Seq<(u32, Seq<u64>)>, code: u32) -> int
    decreases formats.len(),
{
    if formats.len() == 0 || formats[0].0 == code {
        0
    } else {
        1 + place_of(formats.drop_first(), code)
    }
}

/// The formats with one more modifier: at the end of its format's modifiers if it
/// is new there, in a new format at the end if the format is new.
pub open spec fn with_modifier(
    formats: Seq<(u32, Seq<u64>)>,
    code: u32,
    modifier: u64,
) -> Seq<(u32, Seq<u64>)> {
    let i = place_of(formats, code);
    if i == formats.len() {
        formats.push((code, seq![modifier]))
    } else if formats[i].1.contains(modifier) {
        formats
    } else {
        formats.update(i, (code, formats[i].1.push(modifier)))
    }
}

/// The formats with all of `pairs` added, one after the other.
pub open spec fn with_modifiers(
    formats: Seq<(u32, Seq<u64>)>,
    pairs: Seq<(u32, u64)>,
) -> Seq<(u32, Seq<u64>)>
    decreases pairs.len(),
{
    if pairs.len() == 0 {
        formats
    } else {
        with_modifier(with_modifiers(formats, pairs.drop_last()), pairs.last().0, pairs.last().1)
    }
}

/// The table indices that the bytes of a tranche hold. A last odd byte holds none.
pub open spec fn indices_of(order: ByteOrder, bytes: Seq<u8>) -> Seq<nat> {
    Seq::new(bytes.len() / 2, |i: int| order.value(bytes.subrange(2 * i, 2 * i + 2)))
}

/// The (format, modifier) pairs that a tranche announces: those of its indices
/// that are in the table and whose format is a known one.
pub open spec fn announced(table: Seq<FormatTableEntry>, indices: Seq<nat>) -> Seq<(u32, u64)>
    decreases indices.len(),
{
    if indices.len() == 0 {
        seq![]
    } else {
        let pairs = announced(table, indices.drop_last());
        let index = indices.last() as int;
        if index < table.len() && drm_fourcc_code(table[index].format) is Some {
            pairs.push((table[index].format, table[index].modifier))
        } else {
            pairs
        }
    }
}

/// No format stands twice, and no modifier stands twice in a format.
pub open spec fn no_duplicates(formats: Seq<(u32, Seq<u64>)>) -> bool {
    &&& forall|i: int, j: int|
        0 <= i < j < formats.len() ==> (#[trigger] formats[i]).0 != (#[trigger] formats[j]).0
    &&& forall|i: int| 0 <= i < formats.len() ==> (#[trigger] formats[i]).1.no_duplicates()
}

/// `code` is offered with `modifier`.
pub open spec fn offered(formats: Seq<(u32, Seq<u64>)>, code: u32, modifier: u64) -> bool {
    exists|i: int|
        0 <= i < formats.len() && (#[trigger] formats[i]).0 == code && formats[i].1.contains(
            modifier,
        )
}

/// A vector of formats, with its modifiers as sequences.
pub open spec fn shown(formats: Seq<(u32, Vec<u64>)>) -> Seq<(u32, Seq<u64>)> {
    formats.map_values(|f: (u32, Vec<u64>)| (f.0, f.1@))
}

/// The formats that the compositor has announced so far, in the order in which
/// they first came.
pub struct AdvertisedFormats {
    formats: Vec<FormatInfo>,
}

impl View for AdvertisedFormats {
    type V = Seq<(u32, Seq<u64>)>;

    closed spec fn view(&self) -> Seq<(u32, Seq<u64>)> {
        self.formats@.map_values(|f: FormatInfo| (f.code, f.modifiers@))
    }
}

proof fn lemma_place_of(formats: Seq<(u32, Seq<u64>)>, code: u32, i: int)
    requires
        0 <= i <= formats.len(),
        forall|j: int| 0 <= j < i ==> (#[trigger] formats[j]).0 != code,
        i < formats.len() ==> formats[i].0 == code,
    ensures
        place_of(formats, code) == i,
    decreases formats.len(),
{
    if i > 0 {
        assert forall|j: int| 0 <= j < i - 1 implies (#[trigger] formats.drop_first()[j]).0
            != code by {
            assert(formats.drop_first()[j] == formats[j + 1]);
        }
        lemma_place_of(formats.drop_first(), code, i - 1);
    }
}

/// A place that is found holds the code, and none before it does.
proof fn lemma_place_found(formats: Seq<(u32, Seq<u64>)>, code: u32)
    ensures
        0 <= place_of(formats, code) <= formats.len(),
        place_of(formats, code) < formats.len() ==> formats[place_of(formats, code)].0 == code,
        forall|j: int| 0 <= j < place_of(formats, code) ==> (#[trigger] formats[j]).0 != code,
    decreases formats.len(),
{
    if formats.len() > 0 && formats[0].0 != code {
        let rest = formats.drop_first();
        lemma_place_found(rest, code);
        assert forall|j: int| 0 <= j < place_of(formats, code) implies (#[trigger] formats[j]).0
            != code by {
            if j > 0 {
                assert(rest[j - 1] == formats[j]);
            }
        }
    }
}

/// Adding a modifier makes no duplicates.
proof fn lemma_no_duplicates_kept(formats: Seq<(u32, Seq<u64>)>, code: u32, modifier: u64)
    requires
        no_duplicates(formats),
    ensures
        no_duplicates(with_modifier(formats, code, modifier)),
{
    lemma_place_found(formats, code);
    let added = with_modifier(formats, code, modifier);
    assert forall|i: int| 0 <= i < added.len() implies (#[trigger] added[i]).1.no_duplicates() by {
        if i < formats.len() {
            assert(formats[i].1.no_duplicates());
        }
    }
}

impl AdvertisedFormats {
    #[verifier::type_invariant]
    spec fn inv(self) -> bool {
        no_duplicates(self@)
    }

    pub fn new() -> (formats: Self)
        ensures
            formats@ == Seq::<(u32, Seq<u64>)>::empty(),
    {
        AdvertisedFormats { formats: Vec::new() }
    }

    /// Add a modifier to a format that may be new.
    pub fn add_wayland_modifier(&mut self, code: u32, modifier: u64)
        ensures
            final(self)@ == with_modifier(old(self)@, code, modifier),
            no_duplicates(final(self)@),
    {
        proof {
            use_type_invariant(&*self);
            lemma_no_duplicates_kept(self@, code, modifier);
        }
        let ghost before = self@;
        let mut formats: Vec<FormatInfo> = Vec::new();
        std::mem::swap(&mut formats, &mut self.formats);
        let mut i: usize = 0;
        while i < formats.len() && formats[i].code != code
            invariant
                i <= formats@.len(),
                forall|j: int| 0 <= j < i ==> (#[trigger] formats@[j]).code != code,
            decreases formats@.len() - i,
        {
            i += 1;
        }
        proof {
            lemma_place_of(before, code, i as int);
        }
        if i < formats.len() {
            if !holds(&formats[i].modifiers, modifier) {
                formats[i].modifiers.push(modifier);
            }
        } else {
            let mut modifiers: Vec<u64> = Vec::new();
            modifiers.push(modifier);
            formats.push(FormatInfo { code, modifiers });
        }
        assert(formats@.map_values(|f: FormatInfo| (f.code, f.modifiers@)) =~= with_modifier(
            before,
            code,
            modifier,
        ));
        self.formats = formats;
    }

    /// Add what a tranche announces: `bytes` holds the indices of its entries in
    /// `table`.
    pub fn add_tranche(&mut self, order: ByteOrder, table: &DrmFormatTable, bytes: &[u8])
        ensures
            final(self)@ == with_modifiers(
                old(self)@,
                announced(table@, indices_of(order, bytes@)),
            ),
    {
        let ghost indices = indices_of(order, bytes@);
        let len: usize = bytes.len();
        let count: usize = len / 2;
        let mut i: usize = 0;
        assert(indices.take(0) =~= seq![]);
        while i < count
            invariant
                i <= count,
                len == bytes@.len(),
                count == len / 2,
                indices == indices_of(order, bytes@),
                self@ == with_modifiers(
                    old(self)@,
                    announced(table@, indices.take(i as int)),
                ),
            decreases count - i,
        {
            let pair: &[u8] = &bytes[2 * i..2 * i + 2];
            let index: u16 = order.read_u16(pair);
            assert(indices.take(i + 1).drop_last() =~= indices.take(i as int));
            let ghost before = announced(table@, indices.take(i as int));
            if let Some((format, modifier)) = table.get(index as usize) {
                if let Some(code) = recognize(format) {
                    self.add_wayland_modifier(code, modifier);
                    assert(before.push((format, modifier)).drop_last() =~= before);
                }
            }
            i += 1;
        }
        assert(indices.take(i as int) =~= indices);
    }

    /// The formats with their modifiers.
    pub fn to_vec(&self) -> (formats: Vec<(u32, Vec<u64>)>)
        ensures
            shown(formats@) == self@,
            no_duplicates(self@),
    {
        proof {
            use_type_invariant(self);
        }
        let mut formats: Vec<(u32, Vec<u64>)> = Vec::new();
        let mut i: usize = 0;
        while i < self.formats.len()
            invariant
                i <= self.formats@.len(),
                shown(formats@) == self@.take(i as int),
            decreases self.formats@.len() - i,
        {
            let ghost before = formats@;
            let code: u32 = self.formats[i].code;
            let modifiers = copy_of(&self.formats[i].modifiers);
            assert(self@[i as int] == (code, modifiers@));
            formats.push((code, modifiers));
            assert(shown(formats@) =~= shown(before).push(self@[i as int]));
            i += 1;
            assert(shown(formats@) =~= self@.take(i as int));
        }
        assert(self@.take(i as int) =~= self@);
        formats
    }
}

fn copy_of(modifiers: &Vec<u64>) -> (copied: Vec<u64>)
    ensures
        copied@ == modifiers@,
{
    let mut copied: Vec<u64> = Vec::new();
    let mut i: usize = 0;
    while i < modifiers.len()
        invariant
            i <= modifiers@.len(),
            copied@ == modifiers@.take(i as int),
        decreases modifiers@.len() - i,
    {
        copied.push(modifiers[i]);
        i += 1;
        assert(copied@ =~= modifiers@.take(i as int));
    }
    assert(copied@ =~= modifiers@);
    copied
}

/// However many modifiers are announced, no format and no modifier of a format
/// stands twice.
pub proof fn law_announcements_make_no_duplicates(
    formats: Seq<(u32, Seq<u64>)>,
    pairs: Seq<(u32, u64)>,
)
    requires
        no_duplicates(formats),
    ensures
        no_duplicates(with_modifiers(formats, pairs)),
    decreases pairs.len(),
{
    if pairs.len() > 0 {
        law_announcements_make_no_duplicates(formats, pairs.drop_last());
        lemma_no_duplicates_kept(
            with_modifiers(formats, pairs.drop_last()),
            pairs.last().0,
            pairs.last().1,
        );
    }
}

/// A modifier that is announced again changes nothing.
pub proof fn law_repeated_announcement_changes_nothing(
    formats: Seq<(u32, Seq<u64>)>,
    code: u32,
    modifier: u64,
)
    ensures
        ({
            let added = with_modifier(formats, code, modifier);
            with_modifier(added, code, modifier) == added
        }),
{
    lemma_place_found(formats, code);
    let i = place_of(formats, code);
    let added = with_modifier(formats, code, modifier);
    assert(added[i].0 == code);
    assert forall|j: int| 0 <= j < i implies (#[trigger] added[j]).0 != code by {
        assert(formats[j].0 != code);
    }
    lemma_place_of(added, code, i);
    if i == formats.len() {
        assert(added[i].1[0] == modifier);
    } else if !formats[i].1.contains(modifier) {
        assert(added[i].1.last() == modifier);
    }
}

/// What is offered after an announcement is what was offered before, and what is
/// announced.
pub proof fn law_announced_modifier_is_offered(
    formats: Seq<(u32, Seq<u64>)>,
    code: u32,
    modifier: u64,
    c: u32,
    m: u64,
)
    ensures
        offered(with_modifier(formats, code, modifier), c, m) <==> offered(formats, c, m) || (c
            == code && m == modifier),
{
    lemma_place_found(formats, code);
    let i = place_of(formats, code);
    let added = with_modifier(formats, code, modifier);
    if offered(formats, c, m) {
        let k = choose|k: int|
            0 <= k < formats.len() && (#[trigger] formats[k]).0 == c && formats[k].1.contains(m);
        let l = formats[k].1.index_of(m);
        assert(formats[k].1[l] == m);
        assert(added[k].0 == c);
        assert(added[k].1[l] == m);
    }
    if c == code && m == modifier {
        assert(added[i].0 == code);
        if i == formats.len() {
            assert(added[i].1[0] == modifier);
        } else if !formats[i].1.contains(modifier) {
            assert(added[i].1.last() == modifier);
        }
    }
    if offered(added, c, m) && !(c == code && m == modifier) {
        let k = choose|k: int|
            0 <= k < added.len() && (#[trigger] added[k]).0 == c && added[k].1.contains(m);
        let l = added[k].1.index_of(m);
        assert(added[k].1[l] == m);
        if k == i && i == formats.len() {
            assert(added[k].1 == seq![modifier]);
        } else {
            assert(formats[k].0 == c);
            assert(formats[k].1[l] == m);
        }
    }
}

/// After a tranche the compositor offers exactly what it offered before and the
/// pairs that the tranche announces.
pub proof fn law_tranche_is_offered(
    formats: Seq<(u32, Seq<u64>)>,
    pairs: Seq<(u32, u64)>,
    code: u32,
    modifier: u64,
)
    ensures
        offered(with_modifiers(formats, pairs), code, modifier) <==> offered(
            formats,
            code,
            modifier,
        ) || pairs.contains((code, modifier)),
    decreases pairs.len(),
{
    if pairs.len() > 0 {
        let front = pairs.drop_last();
        law_tranche_is_offered(formats, front, code, modifier);
        law_announced_modifier_is_offered(
            with_modifiers(formats, front),
            pairs.last().0,
            pairs.last().1,
            code,
            modifier,
        );
        if front.contains((code, modifier)) {
            let k = front.index_of((code, modifier));
            assert(pairs[k] == (code, modifier));
        }
        if pairs.last() == (code, modifier) {
            assert(pairs[pairs.len() - 1] == (code, modifier));
        }
        if pairs.contains((code, modifier)) && pairs.last() != (code, modifier) {
            let k = pairs.index_of((code, modifier));
            assert(front[k] == (code, modifier));
        }
    }
}

/// What is announced first stays first: formats keep their places, and the
/// modifiers of a format keep theirs.
pub proof fn law_announcements_keep_order(
    formats: Seq<(u32, Seq<u64>)>,
    pairs: Seq<(u32, u64)>,
    i: int,
)
    requires
        0 <= i < formats.len(),
    ensures
        formats.len() <= with_modifiers(formats, pairs).len(),
        with_modifiers(formats, pairs)[i].0 == formats[i].0,
        formats[i].1.is_prefix_of(with_modifiers(formats, pairs)[i].1),
    decreases pairs.len(),
{
    if pairs.len() > 0 {
        law_announcements_keep_order(formats, pairs.drop_last(), i);
        let before = with_modifiers(formats, pairs.drop_last());
        let after = with_modifiers(formats, pairs);
        lemma_place_found(before, pairs.last().0);
        assert(before[i].1.is_prefix_of(after[i].1));
        assert forall|k: int| 0 <= k < formats[i].1.len() implies formats[i].1[k]
            == #[trigger] after[i].1[k] by {
            assert(formats[i].1[k] == before[i].1[k]);
        }
        assert(formats[i].1 =~= after[i].1.subrange(0, formats[i].1.len() as int));
    } else {
        assert(formats[i].1 =~= formats[i].1.subrange(0, formats[i].1.len() as int));
    }
}

/// A tranche announces a pair exactly if one of its indices names an entry of the
/// table with that format and modifier, and the format is a known one.
pub proof fn law_announced_pairs_are_table_entries(
    table: Seq<FormatTableEntry>,
    indices: Seq<nat>,
    format: u32,
    modifier: u64,
)
    ensures
        announced(table, indices).contains((format, modifier)) <==> exists|k: int|
            {
                &&& 0 <= k < indices.len()
                &&& (#[trigger] indices[k]) < table.len()
                &&& table[indices[k] as int].format == format
                &&& table[indices[k] as int].modifier == modifier
                &&& drm_fourcc_code(format) is Some
            },
    decreases indices.len(),
{
    if indices.len() > 0 {
        let front = indices.drop_last();
        let pairs = announced(table, front);
        let all = announced(table, indices);
        let last = indices.last() as int;
        law_announced_pairs_are_table_entries(table, front, format, modifier);
        assert forall|k: int| 0 <= k < front.len() implies front[k] == #[trigger] indices[k] by {}
        if pairs.contains((format, modifier)) {
            let k = pairs.index_of((format, modifier));
            assert(all[k] == (format, modifier));
            let l = choose|l: int|
                {
                    &&& 0 <= l < front.len()
                    &&& (#[trigger] front[l]) < table.len()
                    &&& table[front[l] as int].format == format
                    &&& table[front[l] as int].modifier == modifier
                    &&& drm_fourcc_code(format) is Some
                };
            assert(indices[l] == front[l]);
        } else if all.contains((format, modifier)) {
            let k = all.index_of((format, modifier));
            if k < pairs.len() {
                assert(pairs[k] == (format, modifier));
            }
            assert(indices[indices.len() - 1] == last);
        } else if exists|k: int|
            {
                &&& 0 <= k < indices.len()
                &&& (#[trigger] indices[k]) < table.len()
                &&& table[indices[k] as int].format == format
                &&& table[indices[k] as int].modifier == modifier
                &&& drm_fourcc_code(format) is Some
            } {
            let k = choose|k: int|
                {
                    &&& 0 <= k < indices.len()
                    &&& (#[trigger] indices[k]) < table.len()
                    &&& table[indices[k] as int].format == format
                    &&& table[indices[k] as int].modifier == modifier
                    &&& drm_fourcc_code(format) is Some
                };
            if k < front.len() {
                assert(front[k] == indices[k]);
            } else {
                assert(all[all.len() - 1] == (format, modifier));
            }
        }
    }
}

/// The entries of a table are read where they stand, sixteen bytes apart: four
/// bytes of format, four of padding and eight of modifier, in the given order.
pub proof fn law_entries_are_read_where_they_stand(bytes: Seq<u8>, i: int)
    requires
        0 <= i < bytes.len() / 16,
    ensures
        ({
            let k = 16 * i;
            let little = entries_of(ByteOrder::Little, bytes);
            let big = entries_of(ByteOrder::Big, bytes);
            &&& little.len() == bytes.len() / 16
            &&& big.len() == bytes.len() / 16
            &&& little[i].format == bytes[k] + 0x100 * bytes[k + 1] + 0x1_0000 * bytes[k + 2]
                + 0x100_0000 * bytes[k + 3]
            &&& little[i]._pad == bytes[k + 4] + 0x100 * bytes[k + 5] + 0x1_0000 * bytes[k + 6]
                + 0x100_0000 * bytes[k + 7]
            &&& little[i].modifier == bytes[k + 8] + 0x100 * bytes[k + 9] + 0x1_0000 * bytes[k + 10]
                + 0x100_0000 * bytes[k + 11] + 0x1_0000_0000 * bytes[k + 12] + 0x100_0000_0000
                * bytes[k + 13] + 0x1_0000_0000_0000 * bytes[k + 14] + 0x100_0000_0000_0000
                * bytes[k + 15]
            &&& big[i].format == bytes[k + 3] + 0x100 * bytes[k + 2] + 0x1_0000 * bytes[k + 1]
                + 0x100_0000 * bytes[k]
            &&& big[i]._pad == bytes[k + 7] + 0x100 * bytes[k + 6] + 0x1_0000 * bytes[k + 5]
                + 0x100_0000 * bytes[k + 4]
            &&& big[i].modifier == bytes[k + 15] + 0x100 * bytes[k + 14] + 0x1_0000 * bytes[k + 13]
                + 0x100_0000 * bytes[k + 12] + 0x1_0000_0000 * bytes[k + 11] + 0x100_0000_0000
                * bytes[k + 10] + 0x1_0000_0000_0000 * bytes[k + 9] + 0x100_0000_0000_0000
                * bytes[k + 8]
        }),
{
    let k = 16 * i;
    let record = bytes.subrange(k, k + 16);
    assert(record.subrange(0, 4) =~= seq![bytes[k], bytes[k + 1], bytes[k + 2], bytes[k + 3]]);
    assert(record.subrange(4, 8) =~= seq![bytes[k + 4], bytes[k + 5], bytes[k + 6], bytes[k + 7]]);
    assert(record.subrange(8, 16) =~= seq![
        bytes[k + 8],
        bytes[k + 9],
        bytes[k + 10],
        bytes[k + 11],
        bytes[k + 12],
        bytes[k + 13],
        bytes[k + 14],
        bytes[k + 15],
    ]);
    law_four_bytes(bytes[k], bytes[k + 1], bytes[k + 2], bytes[k + 3]);
    law_four_bytes(bytes[k + 4], bytes[k + 5], bytes[k + 6], bytes[k + 7]);
    law_eight_bytes(
        bytes[k + 8],
        bytes[k + 9],
        bytes[k + 10],
        bytes[k + 11],
        bytes[k + 12],
        bytes[k + 13],
        bytes[k + 14],
        bytes[k + 15],
    );
}

/// The indices of a tranche are read where they stand, two bytes each.
pub proof fn law_indices_are_read_where_they_stand(bytes: Seq<u8>, i: int)
    requires
        0 <= i < bytes.len() / 2,
    ensures
        indices_of(ByteOrder::Little, bytes).len() == bytes.len() / 2,
        indices_of(ByteOrder::Big, bytes).len() == bytes.len() / 2,
        indices_of(ByteOrder::Little, bytes)[i] == bytes[2 * i] + 256 * bytes[2 * i + 1],
        indices_of(ByteOrder::Big, bytes)[i] == 256 * bytes[2 * i] + bytes[2 * i + 1],
{
    assert(bytes.subrange(2 * i, 2 * i + 2) =~= seq![bytes[2 * i], bytes[2 * i + 1]]);
    law_two_bytes(bytes[2 * i], bytes[2 * i + 1]);
}

/// A tranche announces what each of its indices announces, in their order: nothing
/// for one that is not in the table or whose format is unknown, and for any other
/// the format and the modifier that stand in the table.
pub proof fn law_tranche_announces_index_by_index(
    table: Seq<FormatTableEntry>,
    indices: Seq<nat>,
    index: nat,
)
    ensures
        announced(table, seq![]) == Seq::<(u32, u64)>::empty(),
        index < table.len() && drm_fourcc_code(table[index as int].format) is Some ==> announced(
            table,
            indices.push(index),
        ) == announced(table, indices).push(
            (table[index as int].format, table[index as int].modifier),
        ),
        index >= table.len() || drm_fourcc_code(table[index as int].format) is None ==> announced(
            table,
            indices.push(index),
        ) == announced(table, indices),
{
    assert(indices.push(index).drop_last() =~= indices);
}

/// Pairs are added one after the other: what two tranches bring is what the first
/// brings, and then the second.
pub proof fn law_tranches_add_up(
    formats: Seq<(u32, Seq<u64>)>,
    one: Seq<(u32, u64)>,
    other: Seq<(u32, u64)>,
)
    ensures
        with_modifiers(formats, seq![]) == formats,
        with_modifiers(formats, one + other) == with_modifiers(with_modifiers(formats, one), other),
    decreases other.len(),
{
    if other.len() == 0 {
        assert(one + other =~= one);
    } else {
        law_tranches_add_up(formats, one, other.drop_last());
        assert((one + other).drop_last() =~= one + other.drop_last());
        assert((one + other).last() == other.last());
    }
}

/// A pair goes to its place and no other: a format that is not there yet comes last,
/// with that one modifier; a modifier that its format has not yet comes last there;
/// every other format stays as it is.
pub proof fn law_pair_goes_to_its_place(
    formats: Seq<(u32, Seq<u64>)>,
    code: u32,
    modifier: u64,
    i: int,
)
    requires
        no_duplicates(formats),
        0 <= i < formats.len(),
    ensures
        ({
            let added = with_modifier(formats, code, modifier);
            &&& formats[i].0 != code ==> added[i] == formats[i]
            &&& formats[i].0 == code ==> {
                &&& added.len() == formats.len()
                &&& added[i].0 == code
                &&& formats[i].1.contains(modifier) ==> added[i].1 == formats[i].1
                &&& !formats[i].1.contains(modifier) ==> added[i].1 == formats[i].1.push(modifier)
            }
            &&& (forall|j: int| 0 <= j < formats.len() ==> (#[trigger] formats[j]).0 != code)
                ==> added == formats.push((code, seq![modifier]))
        }),
{
    lemma_place_found(formats, code);
    let p = place_of(formats, code);
    if formats[i].0 == code {
        assert(p == i);
    }
}

/// The formats that are shown are those that are there, each with its modifiers.
pub proof fn law_shown_formats(formats: Seq<(u32, Vec<u64>)>, i: int)
    requires
        0 <= i < formats.len(),
    ensures
        shown(formats).len() == formats.len(),
        shown(formats)[i].0 == formats[i].0,
        shown(formats)[i].1 == formats[i].1@,
{
}

} // verus!
