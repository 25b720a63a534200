//! Allocation layouts: a size and an alignment, and the arithmetic that places
//! a payload behind a control-block header.

use vstd::arithmetic::power2::is_pow2;
use vstd::layout::{align_of, layout_for_type_is_valid, size_of};
use vstd::prelude::*;

verus! {

/// A positive power of two.
pub open spec fn is_power_of_two(n: int) -> bool
    decreases n,
{
    if n <= 0 {
        false
    } else if n == 1 {
        true
    } else {
        n % 2 == 0 && is_power_of_two(n / 2)
    }
}

/// The least multiple of `align` that is not below `n`.
pub open spec fn round_up(n: int, align: int) -> int
    recommends
        n >= 0,
        align > 0,
{
    if n % align == 0 {
        n
    } else {
        n + (align - n % align)
    }
}

/// Whether `size` bytes at alignment `align` form a layout: the alignment is a
/// power of two and the size, rounded up to it, stays within `isize::MAX`.
pub open spec fn layout_fits(size: int, align: int) -> bool {
    is_power_of_two(align) && 0 <= size && size + (align - 1) <= isize::MAX as int
}

/// The size and alignment of a region of memory.
#[derive(Clone, Copy, Debug, PartialEq, Eq, Structural)]
pub struct Layout {
    /// The size in bytes.
    pub size: usize,
    /// The minimum alignment in bytes.
    pub align: usize,
}

/// Decides whether `n` is a power of two by halving it.
pub fn power_of_two(n: usize) -> (r: bool)
    ensures
        r == is_power_of_two(n as int),
{
    if n == 0 {
        return false;
    }
    let mut m: usize = n;
    while m % 2 == 0
        invariant
            m > 0,
            is_power_of_two(m as int) == is_power_of_two(n as int),
        decreases m,
    {
        m = m / 2;
    }
    m == 1
}

impl Layout {
    /// The layout is one that an allocator accepts.
    pub open spec fn is_valid(self) -> bool {
        layout_fits(self.size as int, self.align as int)
    }

    /// The layout with its size rounded up to its alignment.
    pub open spec fn pad_to_align_spec(self) -> Layout {
        Layout { size: round_up(self.size as int, self.align as int) as usize, align: self.align }
    }

    /// The layout of `self` followed by `next`, and the offset at which `next`
    /// starts: the end of `self` rounded up to the alignment of `next`. `None`
    /// where either part is no layout or the whole is too large to be one.
    pub open spec fn extend_spec(self, next: Layout) -> Option<(Layout, usize)> {
        let offset = round_up(self.size as int, next.align as int);
        let size = offset + next.size;
        let align = if self.align >= next.align {
            self.align
        } else {
            next.align
        };
        if self.is_valid() && next.is_valid() && layout_fits(size, align as int) {
            Some((Layout { size: size as usize, align }, offset as usize))
        } else {
            None
        }
    }

    /// The layout of a value of type `T`.
    pub open spec fn of<T>() -> Layout {
        Layout { size: size_of::<T>() as usize, align: align_of::<T>() as usize }
    }

    /// The layout of a value of type `T`.
    pub fn new<T>() -> (r: Layout)
        ensures
            r == Layout::of::<T>(),
            r.size == size_of::<T>(),
            r.align == align_of::<T>(),
            r.is_valid(),
    {
        layout_for_type_is_valid::<T>();
        let size: usize = core::mem::size_of::<T>();
        let align: usize = core::mem::align_of::<T>();
        proof {
            lemma_power_of_two_agrees(align as int);
            lemma_isize_limit_is_power_of_two();
            lemma_power_of_two_below_limit(align as int);
            lemma_power_of_two_divides(align as int, isize::MAX as int + 1);
            lemma_last_before_multiple(isize::MAX as int + 1, align as int);
        }
        Layout { size, align }
    }

    /// Builds a layout, or `None` where `size` and `align` do not form one.
    pub fn from_size_align(size: usize, align: usize) -> (r: Option<Layout>)
        ensures
            r == if layout_fits(size as int, align as int) {
                Some(Layout { size, align })
            } else {
                None::<Layout>
            },
    {
        if !power_of_two(align) || align - 1 > isize::MAX as usize {
            return None;
        }
        let limit: usize = isize::MAX as usize - (align - 1);
        if size > limit {
            None
        } else {
            Some(Layout { size, align })
        }
    }

    /// Whether the layout is valid.
    pub fn check_valid(&self) -> (r: bool)
        ensures
            r == self.is_valid(),
    {
        Layout::from_size_align(self.size, self.align).is_some()
    }

    /// The number of bytes to add to the size to reach a multiple of `align`.
    pub fn padding_needed_for(&self, align: usize) -> (pad: usize)
        requires
            align > 0,
        ensures
            pad as int == round_up(self.size as int, align as int) - self.size,
            pad < align,
    {
        let rem: usize = self.size % align;
        if rem == 0 {
            0
        } else {
            align - rem
        }
    }

    /// Rounds the size up to the alignment.
    pub fn pad_to_align(&self) -> (r: Layout)
        requires
            self.is_valid(),
        ensures
            r == self.pad_to_align_spec(),
            r.is_valid(),
            r.size >= self.size,
            r.size as int % r.align as int == 0,
    {
        let pad: usize = self.padding_needed_for(self.align);
        proof {
            lemma_round_up(self.size as int, self.align as int);
            lemma_padded_fits(self.size as int, self.align as int);
        }
        Layout { size: self.size + pad, align: self.align }
    }

    /// Places `next` behind `self`.
    pub fn extend(&self, next: Layout) -> (r: Option<(Layout, usize)>)
        ensures
            r == self.extend_spec(next),
    {
        if !self.check_valid() || !next.check_valid() {
            return None;
        }
        let pad: usize = self.padding_needed_for(next.align);
        let offset: usize = self.size + pad;
        let align: usize = if self.align >= next.align {
            self.align
        } else {
            next.align
        };
        let limit: usize = isize::MAX as usize - (align - 1);
        if offset > limit || next.size > limit - offset {
            None
        } else {
            Some((Layout { size: offset + next.size, align }, offset))
        }
    }
}

/// `round_up` gives a multiple of `align` within `align - 1` above `n`.
pub proof fn lemma_round_up(n: int, align: int)
    requires
        n >= 0,
        align > 0,
    ensures
        round_up(n, align) % align == 0,
        n <= round_up(n, align) < n + align,
{
    let r = n % align;
    if r != 0 {
        assert((n + (align - r)) % align == 0) by (nonlinear_arith)
            requires
                r == n % align,
                align > 0,
        ;
    }
}

/// A power of two divides every power of two that is not below it.
pub proof fn lemma_power_of_two_divides(a: int, m: int)
    requires
        is_power_of_two(a),
        is_power_of_two(m),
        a <= m,
    ensures
        m % a == 0,
    decreases a,
{
    if a == 1 {
    } else {
        let ha = a / 2;
        let hm = m / 2;
        lemma_power_of_two_divides(ha, hm);
        let q = hm / ha;
        assert(hm == ha * q) by {
            vstd::arithmetic::div_mod::lemma_fundamental_div_mod(hm, ha);
        }
        assert(m == q * a) by (nonlinear_arith)
            requires
                m == 2 * hm,
                a == 2 * ha,
                hm == ha * q,
        ;
        vstd::arithmetic::div_mod::lemma_mod_multiples_basic(q, a);
    }
}

/// The two ways to say that a number is a power of two agree.
pub proof fn lemma_power_of_two_agrees(n: int)
    ensures
        is_power_of_two(n) == is_pow2(n),
    decreases n,
{
    reveal(is_pow2);
    if n > 1 {
        lemma_power_of_two_agrees(n / 2);
    }
}

/// A power of two that fits a `usize` is not above `isize::MAX + 1`.
pub proof fn lemma_power_of_two_below_limit(a: int)
    requires
        is_power_of_two(a),
        a <= usize::MAX,
    ensures
        a <= isize::MAX as int + 1,
{
    let m = isize::MAX as int + 1;
    lemma_isize_limit_is_power_of_two();
    if a > m {
        lemma_power_of_two_divides(m, a);
        assert(a >= 2 * m) by (nonlinear_arith)
            requires
                a % m == 0,
                a > m,
                m > 0,
        ;
    }
}

/// The number before a multiple of `a` leaves `a - 1` when divided by `a`.
pub proof fn lemma_last_before_multiple(m: int, a: int)
    requires
        a > 0,
        m > 0,
        m % a == 0,
    ensures
        (m - 1) % a == a - 1,
{
    let q = m / a;
    vstd::arithmetic::div_mod::lemma_fundamental_div_mod(m, a);
    assert(m - 1 == a * (q - 1) + (a - 1)) by (nonlinear_arith)
        requires
            m == a * q,
    ;
    vstd::arithmetic::div_mod::lemma_fundamental_div_mod_converse(m - 1, a, q - 1, a - 1);
}

/// `isize::MAX + 1` is a power of two.
pub proof fn lemma_isize_limit_is_power_of_two()
    ensures
        is_power_of_two(isize::MAX as int + 1),
{
    reveal_with_fuel(is_power_of_two, 65);
    if isize::MAX as int == 0x7fff_ffff {
        assert(is_power_of_two(0x8000_0000));
    } else {
        assert(isize::MAX as int == 0x7fff_ffff_ffff_ffff);
        assert(is_power_of_two(0x8000_0000_0000_0000));
    }
}

/// A layout stays a layout when its size is rounded up to its alignment.
pub proof fn lemma_padded_fits(size: int, align: int)
    requires
        layout_fits(size, align),
    ensures
        layout_fits(round_up(size, align), align),
{
    lemma_round_up(size, align);
    lemma_isize_limit_is_power_of_two();
    let m = isize::MAX as int + 1;
    let p = round_up(size, align);
    lemma_power_of_two_divides(align, m);
    assert(p + align <= m) by (nonlinear_arith)
        requires
            p % align == 0,
            m % align == 0,
            p < m,
            align > 0,
    ;
}

/// The layout of a control block's header: the descriptor reference, the two
/// counters and the payload offset.
pub open spec fn header_spec() -> Layout {
    Layout { size: 24, align: 8 }
}

/// The footprint of a `Layout` that stands in the payload slot once the
/// payload is destroyed.
pub open spec fn slot_layout_spec() -> Layout {
    Layout { size: 16, align: 8 }
}

/// The layout of a block that holds `payload` behind the header, padded to its
/// alignment, and the offset of the payload in it.
pub open spec fn block_layout_spec(payload: Layout) -> Option<(Layout, usize)> {
    match header_spec().extend_spec(payload) {
        Some((whole, offset)) => Some((whole.pad_to_align_spec(), offset)),
        None => None,
    }
}

/// The layout that a block is allocated with, and the payload offset stored in
/// it: large enough for the header with the payload and for the header with a
/// `Layout`, at the stricter of the two alignments, padded. `None` where no
/// such layout exists or the offset does not fit the block's offset field.
pub open spec fn construction_layout_spec(payload: Layout) -> Option<(Layout, u16)> {
    match (block_layout_spec(payload), block_layout_spec(slot_layout_spec())) {
        (Some((with_value, offset)), Some((with_layout, _))) => {
            let size = if with_value.size >= with_layout.size {
                with_value.size
            } else {
                with_layout.size
            };
            let align = if with_value.align >= with_layout.align {
                with_value.align
            } else {
                with_layout.align
            };
            if offset <= u16::MAX && layout_fits(size as int, align as int) {
                Some((Layout { size, align }.pad_to_align_spec(), offset as u16))
            } else {
                None
            }
        },
        _ => None,
    }
}

/// The header's layout.
pub fn header() -> (r: Layout)
    ensures
        r == header_spec(),
        r.is_valid(),
{
    proof {
        reveal_with_fuel(is_power_of_two, 5);
    }
    Layout { size: 24, align: 8 }
}

/// The footprint of a `Layout` in the payload slot.
pub fn slot_layout() -> (r: Layout)
    ensures
        r == slot_layout_spec(),
        r.is_valid(),
{
    proof {
        reveal_with_fuel(is_power_of_two, 5);
    }
    Layout { size: 16, align: 8 }
}

/// The layout of the header followed by `payload`, padded, and the payload's
/// offset.
pub fn block_layout(payload: Layout) -> (r: Option<(Layout, usize)>)
    ensures
        r == block_layout_spec(payload),
        r is Some ==> r.unwrap().0.is_valid(),
{
    match header().extend(payload) {
        Some((whole, offset)) => Some((whole.pad_to_align(), offset)),
        None => None,
    }
}

/// The layout to allocate a block for `payload` with, and the payload offset
/// to store in it.
pub fn construction_layout(payload: Layout) -> (r: Option<(Layout, u16)>)
    ensures
        r == construction_layout_spec(payload),
        r is Some ==> r.unwrap().0.is_valid(),
{
    let with_value = block_layout(payload);
    let with_layout = block_layout(slot_layout());
    match (with_value, with_layout) {
        (Some((a, offset)), Some((b, _))) => {
            let size: usize = if a.size >= b.size {
                a.size
            } else {
                b.size
            };
            let align: usize = if a.align >= b.align {
                a.align
            } else {
                b.align
            };
            if offset > 0xffff {
                return None;
            }
            match Layout::from_size_align(size, align) {
                Some(l) => Some((l.pad_to_align(), offset as u16)),
                None => None,
            }
        },
        _ => None,
    }
}

/// The header is its fields one after the other, padded: the descriptor
/// reference of 8 bytes, the two counters of 4 bytes each, and the payload
/// offset of 2 bytes.
pub proof fn lemma_header_is_its_fields()
    ensures
        ({
            let reference = Layout { size: 8, align: 8 };
            let counter = Layout { size: 4, align: 4 };
            let offset = Layout { size: 2, align: 2 };
            let with_strong = reference.extend_spec(counter).unwrap().0;
            let with_weak = with_strong.extend_spec(counter).unwrap().0;
            let with_offset = with_weak.extend_spec(offset).unwrap().0;
            &&& reference.extend_spec(counter) == Some((Layout { size: 12, align: 8 }, 8usize))
            &&& with_strong.extend_spec(counter) == Some((Layout { size: 16, align: 8 }, 12usize))
            &&& with_weak.extend_spec(offset) == Some((Layout { size: 18, align: 8 }, 16usize))
            &&& with_offset.pad_to_align_spec() == header_spec()
        }),
{
    reveal_with_fuel(is_power_of_two, 5);
}

/// Where a block can be laid out for a payload, the payload starts behind the
/// header at an offset that its alignment divides, and ends within the block;
/// the block is at least as strictly aligned as the header and the payload,
/// and its size is a multiple of its alignment.
pub proof fn lemma_payload_placed(payload: Layout)
    requires
        block_layout_spec(payload) is Some,
    ensures
        ({
            let (block, offset) = block_layout_spec(payload).unwrap();
            &&& payload.is_valid()
            &&& block.is_valid()
            &&& offset >= header_spec().size
            &&& offset as int % payload.align as int == 0
            &&& offset + payload.size <= block.size
            &&& block.align >= payload.align
            &&& block.align >= header_spec().align
            &&& block.size as int % block.align as int == 0
        }),
{
    let (whole, offset) = header_spec().extend_spec(payload).unwrap();
    lemma_round_up(header_spec().size as int, payload.align as int);
    lemma_round_up(whole.size as int, whole.align as int);
    lemma_padded_fits(whole.size as int, whole.align as int);
}

/// A block with a `Layout` in its payload slot takes 40 bytes at alignment 8.
pub proof fn lemma_block_with_layout()
    ensures
        block_layout_spec(slot_layout_spec()) == Some((Layout { size: 40, align: 8 }, 24usize)),
{
    reveal_with_fuel(is_power_of_two, 5);
    assert(header_spec().is_valid());
    assert(slot_layout_spec().is_valid());
    assert(round_up(24, 8) == 24);
    assert(layout_fits(40, 8));
    assert(header_spec().extend_spec(slot_layout_spec()) == Some(
        (Layout { size: 40, align: 8 }, 24usize),
    ));
    assert(round_up(40, 8) == 40);
}

/// The layout that a block is allocated with holds both things that the
/// block is for. The payload starts behind the header, at the offset stored
/// in the block, which its alignment divides, and ends within the block. A
/// `Layout` put behind the header ends within the block too. The block is at
/// least as strictly aligned as the header, the payload and a `Layout`, its
/// size is a multiple of its alignment, and it is no larger than that takes:
/// the larger of the two sizes, rounded up to the alignment.
pub proof fn lemma_construction_layout_holds_both(payload: Layout)
    requires
        construction_layout_spec(payload) is Some,
    ensures
        block_layout_spec(payload) is Some,
        ({
            let (allocated, offset) = construction_layout_spec(payload).unwrap();
            let (with_value, value_offset) = block_layout_spec(payload).unwrap();
            let (with_layout, slot_offset) = block_layout_spec(slot_layout_spec()).unwrap();
            let larger = if with_value.size >= with_layout.size {
                with_value.size
            } else {
                with_layout.size
            };
            &&& allocated.is_valid()
            &&& offset == value_offset
            &&& offset >= header_spec().size
            &&& offset as int % payload.align as int == 0
            &&& offset + payload.size <= allocated.size
            &&& slot_offset >= header_spec().size
            &&& slot_offset + slot_layout_spec().size <= allocated.size
            &&& allocated.align >= header_spec().align
            &&& allocated.align >= payload.align
            &&& allocated.align >= slot_layout_spec().align
            &&& allocated.size as int % allocated.align as int == 0
            &&& larger <= allocated.size < larger + allocated.align
        }),
{
    lemma_block_with_layout();
    lemma_payload_placed(payload);
    let with_value = block_layout_spec(payload).unwrap().0;
    let larger = if with_value.size >= 40 {
        with_value.size
    } else {
        40usize
    };
    lemma_round_up(larger as int, with_value.align as int);
    lemma_padded_fits(larger as int, with_value.align as int);
}

} // verus!
