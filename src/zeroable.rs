use vstd::prelude::*;

verus! {

/// Types with a designated terminator value.
///
/// The test is pure and total: it looks at the value alone and is fixed by the
/// type, so what ends an array never depends on context.
pub trait Zeroable: Sized {
    /// Whether `self` is the terminator of its type.
    spec fn spec_is_zero(self) -> bool;

    /// Decides whether `self` is the terminator of its type.
    fn is_zero(self) -> (r: bool)
        ensures
            r == self.spec_is_zero(),
    ;
}

impl Zeroable for u8 {
    open spec fn spec_is_zero(self) -> bool {
        self == 0
    }

    fn is_zero(self) -> (r: bool) {
        self == 0
    }
}

impl Zeroable for i8 {
    open spec fn spec_is_zero(self) -> bool {
        self == 0
    }

    fn is_zero(self) -> (r: bool) {
        self == 0
    }
}

impl Zeroable for u16 {
    open spec fn spec_is_zero(self) -> bool {
        self == 0
    }

    fn is_zero(self) -> (r: bool) {
        self == 0
    }
}

impl Zeroable for i16 {
    open spec fn spec_is_zero(self) -> bool {
        self == 0
    }

    fn is_zero(self) -> (r: bool) {
        self == 0
    }
}

impl Zeroable for u32 {
    open spec fn spec_is_zero(self) -> bool {
        self == 0
    }

    fn is_zero(self) -> (r: bool) {
        self == 0
    }
}

impl Zeroable for i32 {
    open spec fn spec_is_zero(self) -> bool {
        self == 0
    }

    fn is_zero(self) -> (r: bool) {
        self == 0
    }
}

impl Zeroable for u64 {
    open spec fn spec_is_zero(self) -> bool {
        self == 0
    }

    fn is_zero(self) -> (r: bool) {
        self == 0
    }
}

impl Zeroable for i64 {
    open spec fn spec_is_zero(self) -> bool {
        self == 0
    }

    fn is_zero(self) -> (r: bool) {
        self == 0
    }
}

impl Zeroable for usize {
    open spec fn spec_is_zero(self) -> bool {
        self == 0
    }

    fn is_zero(self) -> (r: bool) {
        self == 0
    }
}

impl Zeroable for isize {
    open spec fn spec_is_zero(self) -> bool {
        self == 0
    }

    fn is_zero(self) -> (r: bool) {
        self == 0
    }
}

/// An address that is read through, held as its numeric value.
///
/// The value 0 is the null address.
#[derive(Clone, Copy, Debug, PartialEq, Eq, Structural)]
pub struct ConstAddr(pub usize);

/// An address that may be written through, held as its numeric value.
///
/// The value 0 is the null address.
#[derive(Clone, Copy, Debug, PartialEq, Eq, Structural)]
pub struct MutAddr(pub usize);

impl ConstAddr {
    /// The null address.
    pub fn null() -> (r: ConstAddr)
        ensures
            r.0 == 0,
    {
        ConstAddr(0)
    }
}

impl MutAddr {
    /// The null address.
    pub fn null() -> (r: MutAddr)
        ensures
            r.0 == 0,
    {
        MutAddr(0)
    }
}

impl Zeroable for ConstAddr {
    open spec fn spec_is_zero(self) -> bool {
        self.0 == 0
    }

    fn is_zero(self) -> (r: bool) {
        self.0 == 0
    }
}

impl Zeroable for MutAddr {
    open spec fn spec_is_zero(self) -> bool {
        self.0 == 0
    }

    fn is_zero(self) -> (r: bool) {
        self.0 == 0
    }
}

/// The terminator of each integer type is 0 alone, and that of each address
/// type is the null address alone: every other value is an element.
pub proof fn lemma_terminator_is_zero(
    a: u8,
    b: i8,
    c: u16,
    d: i16,
    e: u32,
    f: i32,
    g: u64,
    h: i64,
    k: usize,
    m: isize,
    p: ConstAddr,
    q: MutAddr,
)
    ensures
        a.spec_is_zero() <==> a == 0,
        b.spec_is_zero() <==> b == 0,
        c.spec_is_zero() <==> c == 0,
        d.spec_is_zero() <==> d == 0,
        e.spec_is_zero() <==> e == 0,
        f.spec_is_zero() <==> f == 0,
        g.spec_is_zero() <==> g == 0,
        h.spec_is_zero() <==> h == 0,
        k.spec_is_zero() <==> k == 0,
        m.spec_is_zero() <==> m == 0,
        p.spec_is_zero() <==> p.0 == 0,
        q.spec_is_zero() <==> q.0 == 0,
{
}

} // verus!
