//! A fixed-size buffer with a cursor into itself.
//!
//! The cursor is a position in the buffer's own backing array, so it has no
//! sensible value until the buffer has its final home. [`PtrBufUninit`] is
//! the buffer before that: the array is there, the cursor and the end mark
//! are empty cells. Initialization points the cursor at the first element
//! and the end mark behind the last, and [`PtrBuf`] is the buffer after it:
//! [`PtrBuf::next`] hands out the elements in the order of the array, each
//! once. [`lemma_initialized_buffer`] and [`lemma_next_walks_the_array`]
//! state this for every buffer.
//!
//! A buffer takes part in initialization if its elements borrow nothing:
//! the handles of [`PtrBufOngoingInit`] borrow the array, and the elements
//! have to outlive that borrow whatever its lifetime is.

use crate::needs_init::{NeedsInit, NeedsPinnedInit};
use crate::private::BeginInit;
use crate::static_uninit::{lemma_transmuted_view, StaticUninit};
use crate::transmute::TransmuteInto;
use crate::PinnedInit;
use vstd::prelude::*;

verus! {

/// A buffer of `N` elements whose cursor has not been set.
#[derive(Debug)]
pub struct PtrBufUninit<T, const N: usize> {
    buf: [T; N],
    ptr: StaticUninit<usize, false>,
    end: StaticUninit<usize, false>,
}

/// A buffer of `N` elements with a cursor into them.
#[derive(Debug)]
pub struct PtrBuf<T, const N: usize> {
    buf: [T; N],
    ptr: StaticUninit<usize, true>,
    end: StaticUninit<usize, true>,
}

/// The handles to the fields of a buffer that is being initialized.
pub struct PtrBufOngoingInit<'init, T, const N: usize> {
    /// The cursor, to be set.
    pub ptr: NeedsInit<'init, StaticUninit<usize, false>>,
    /// The backing array.
    pub buf: &'init mut [T; N],
    /// The end mark, to be set.
    pub end: NeedsInit<'init, StaticUninit<usize, false>>,
}

impl<T, const N: usize> PtrBufUninit<T, N> {
    /// The backing array.
    pub closed spec fn buf(&self) -> [T; N] {
        self.buf
    }

    /// The elements, in the order of the backing array.
    pub open spec fn items(&self) -> Seq<T> {
        self.buf()@
    }

    /// The cell of the cursor.
    pub closed spec fn ptr(&self) -> StaticUninit<usize, false> {
        self.ptr
    }

    /// The cell of the end mark.
    pub closed spec fn end(&self) -> StaticUninit<usize, false> {
        self.end
    }

    /// A buffer over `buf`, with cursor and end mark still to be set.
    pub fn new(buf: [T; N]) -> (made: Self)
        ensures
            made.buf() == buf,
            made.ptr()@.is_none(),
            made.end()@.is_none(),
    {
        PtrBufUninit { buf, ptr: StaticUninit::uninit(), end: StaticUninit::uninit() }
    }
}

impl<T: 'static, const N: usize> BeginInit for PtrBufUninit<T, N> {
    type OngoingInit<'init> = PtrBufOngoingInit<'init, T, N>;

    closed spec fn shown<'init>(ongoing: PtrBufOngoingInit<'init, T, N>) -> Self {
        PtrBufUninit { buf: *ongoing.buf, ptr: *ongoing.ptr.target(), end: *ongoing.end.target() }
    }

    fn __begin_init<'init>(this: NeedsPinnedInit<'init, Self>) -> (ongoing: PtrBufOngoingInit<
        'init,
        T,
        N,
    >)
        ensures
            *ongoing.buf == this.target().buf(),
            *ongoing.ptr.target() == this.target().ptr(),
            *ongoing.end.target() == this.target().end(),
            final(this.target()).buf() == *final(ongoing.buf),
            final(this.target()).ptr() == *final(ongoing.ptr.target()),
            final(this.target()).end() == *final(ongoing.end.target()),
    {
        let this = this.into_inner();
        PtrBufOngoingInit {
            ptr: NeedsInit::new_unchecked(&mut this.ptr),
            buf: &mut this.buf,
            end: NeedsInit::new_unchecked(&mut this.end),
        }
    }
}

impl<T, const N: usize> TransmuteInto<PtrBuf<T, N>> for PtrBufUninit<T, N> {
    /// Cursor and end mark are set, the end mark is behind the last element
    /// and the cursor is not behind the end mark.
    open spec fn transmutable(&self) -> bool {
        &&& self.ptr()@.is_some()
        &&& self.end()@ == Some(N)
        &&& self.ptr()@.unwrap() <= N
    }

    closed spec fn transmuted(&self) -> PtrBuf<T, N> {
        PtrBuf { buf: self.buf, ptr: self.ptr.transmuted(), end: self.end.transmuted() }
    }

    fn can_transmute(&self) -> (yes: bool) {
        match (self.ptr.peek(), self.end.peek()) {
            (Some(ptr), Some(end)) => *end == N && *ptr <= N,
            _ => false,
        }
    }

    fn transmute(self) -> (target: PtrBuf<T, N>) {
        proof {
            lemma_transmuted_view(self.ptr);
            lemma_transmuted_view(self.end);
        }
        PtrBuf { buf: self.buf, ptr: self.ptr.transmute(), end: self.end.transmute() }
    }
}

impl<T: 'static, const N: usize> PinnedInit for PtrBufUninit<T, N> {
    type Initialized = PtrBuf<T, N>;

    /// The cursor is inside the buffer or just behind it.
    open spec fn is_valid(initialized: &PtrBuf<T, N>) -> bool {
        initialized.cursor() <= N
    }

    closed spec fn after_init(&self) -> Self {
        PtrBufUninit { buf: self.buf, ptr: self.ptr.written(0), end: self.end.written(N) }
    }

    proof fn lemma_after_init_is_valid(&self) {
        self.ptr.lemma_written_view(0);
        self.end.lemma_written_view(N);
        lemma_transmuted_view(self.after_init().ptr);
    }

    fn init_raw(this: NeedsPinnedInit<'_, Self>) {
        let PtrBufOngoingInit { ptr, buf: _, end } = this.begin_init();
        ptr.init(0);
        end.init(N);
    }
}

/// What initialization makes of a buffer: the same elements, with the cursor
/// at the first of them.
pub proof fn lemma_initialized_buffer<T: 'static, const N: usize>(found: PtrBufUninit<T, N>)
    ensures
        found.after_init().transmutable(),
        found.after_init().transmuted().items() == found.items(),
        found.after_init().transmuted().cursor() == 0,
{
    found.ptr.lemma_written_view(0);
    found.end.lemma_written_view(N);
    lemma_transmuted_view(found.after_init().ptr);
}

impl<T, const N: usize> PtrBuf<T, N> {
    #[verifier::type_invariant]
    spec fn cursor_in_bounds(&self) -> bool {
        &&& self.ptr@.is_some()
        &&& self.end@ == Some(N)
        &&& self.ptr@.unwrap() <= N
    }

    /// The elements, in the order of the backing array.
    pub closed spec fn items(&self) -> Seq<T> {
        self.buf@
    }

    /// The position that the cursor points to: the number of elements that
    /// have been handed out.
    pub closed spec fn cursor(&self) -> nat {
        self.ptr@.unwrap() as nat
    }

    /// The element under the cursor: the one that the next call of
    /// [`next`](Self::next) hands out, if there is one left.
    pub open spec fn current(&self) -> Option<T> {
        if self.cursor() < N {
            Some(self.items()[self.cursor() as int])
        } else {
            None
        }
    }

    /// The buffer as one call of [`next`](Self::next) leaves it.
    pub closed spec fn advanced(&self) -> Self {
        if self.cursor() < N {
            PtrBuf {
                buf: self.buf,
                ptr: self.ptr.replaced((self.cursor() + 1) as usize),
                end: self.end,
            }
        } else {
            *self
        }
    }

    /// The buffer as `calls` calls of [`next`](Self::next) leave it.
    pub open spec fn advanced_by(&self, calls: nat) -> Self
        decreases calls,
    {
        if calls == 0 {
            *self
        } else {
            self.advanced().advanced_by((calls - 1) as nat)
        }
    }

    /// A call of `next` keeps the elements and moves the cursor on by one,
    /// unless the cursor is behind the last element, where it stays.
    pub proof fn lemma_advanced(&self)
        requires
            self.cursor() <= N,
        ensures
            self.advanced().items() == self.items(),
            self.advanced().cursor() == (if self.cursor() < N {
                self.cursor() + 1
            } else {
                self.cursor()
            }),
    {
        if self.cursor() < N {
            self.ptr.lemma_replaced_view((self.cursor() + 1) as usize);
        }
    }

    /// The element under the cursor, and the cursor moved on by one; or
    /// `None`, with nothing changed, once the cursor is behind the last
    /// element.
    pub fn next(&mut self) -> (item: Option<&T>)
        ensures
            *final(self) == old(self).advanced(),
            match item {
                Some(element) => old(self).current() == Some(*element),
                None => old(self).current().is_none(),
            },
            final(self).items() == old(self).items(),
            final(self).cursor() == (if old(self).cursor() < N {
                old(self).cursor() + 1
            } else {
                old(self).cursor()
            }),
    {
        proof {
            use_type_invariant(&*self);
            old(self).lemma_advanced();
        }
        let at: usize = *self.ptr.get();
        if at >= *self.end.get() {
            None
        } else {
            self.ptr.set(at + 1);
            Some(&self.buf[at])
        }
    }

    /// How many elements are still to come.
    pub fn remaining(&self) -> (left: usize)
        ensures
            left == N - self.cursor(),
    {
        proof {
            use_type_invariant(self);
        }
        *self.end.get() - *self.ptr.get()
    }
}

/// The walk of the cursor: a buffer whose cursor is at the first element
/// hands out, with its call number `calls` counted from zero, the element at
/// position `calls` of the backing array, for as many calls as the array has
/// elements; every call after that hands out nothing. The elements stay as
/// they are.
pub proof fn lemma_next_walks_the_array<T, const N: usize>(buffer: PtrBuf<T, N>, calls: nat)
    requires
        buffer.cursor() == 0,
    ensures
        buffer.advanced_by(calls).items() == buffer.items(),
        buffer.advanced_by(calls).cursor() == (if calls < N {
            calls
        } else {
            N as nat
        }),
        calls < N ==> buffer.advanced_by(calls).current() == Some(buffer.items()[calls as int]),
        calls >= N ==> buffer.advanced_by(calls).current().is_none(),
{
    lemma_walk(buffer, calls);
}

/// The walk of the cursor from wherever it is.
proof fn lemma_walk<T, const N: usize>(buffer: PtrBuf<T, N>, calls: nat)
    requires
        buffer.cursor() <= N,
    ensures
        buffer.advanced_by(calls).items() == buffer.items(),
        buffer.advanced_by(calls).cursor() == (if buffer.cursor() + calls < N {
            buffer.cursor() + calls
        } else {
            N as nat
        }),
    decreases calls,
{
    if calls > 0 {
        buffer.lemma_advanced();
        lemma_walk(buffer.advanced(), (calls - 1) as nat);
    }
}

} // verus!
