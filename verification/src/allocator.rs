//! The Frame Allocator Bridge.
//!
//! The firmware owns the authoritative free-page pool; the bridge itself
//! keeps no allocation table. Here the pool is an explicit value of
//! [`BootMemory`]: the addresses the firmware will grant next, in order, and
//! the pages currently allocated through the bridge together with their
//! contents. The bridge's policy is proved over that model: a granted frame
//! is page-aligned, fully zero-filled before it is returned, and not
//! previously in use, and a release succeeds exactly for a page that this
//! path allocated and has not yet released.

use crate::errors::{Error, ErrorView, FirmwareCall};
use crate::frame::{page_aligned, Frame, PAGE_SIZE};
use vstd::prelude::*;

verus! {

/// One allocated page: its start address and its current contents.
struct PageEntry {
    start: u64,
    bytes: Vec<u8>,
}

/// Mathematical value of the modeled firmware memory: the grant script that
/// remains, and the allocated pages as (start address, contents) pairs in
/// allocation order.
#[verifier::ext_equal]
pub ghost struct MemoryView {
    pub grants: Seq<u64>,
    pub pages: Seq<(u64, Seq<u8>)>,
}

/// The contents of a page freshly zero-filled by the bridge.
pub open spec fn zero_page_bytes() -> Seq<u8> {
    Seq::new(PAGE_SIZE as nat, |i: int| 0u8)
}

/// Index of the first page whose start address is `start`, or `-1` when no
/// page has it.
pub open spec fn page_index(pages: Seq<(u64, Seq<u8>)>, start: u64) -> int
    decreases pages.len(),
{
    if pages.len() == 0 {
        -1
    } else if pages[0].0 == start {
        0
    } else {
        let rest = page_index(pages.drop_first(), start);
        if rest < 0 {
            -1
        } else {
            rest + 1
        }
    }
}

/// Whether a page at `start` is currently allocated.
pub open spec fn has_page(m: MemoryView, start: u64) -> bool {
    page_index(m.pages, start) >= 0
}

/// The contents of the allocated page at `start`.
pub open spec fn page_bytes(m: MemoryView, start: u64) -> Seq<u8> {
    m.pages[page_index(m.pages, start)].1
}

/// Well-formedness of the memory model: every address in it is page-aligned,
/// no address is scripted or allocated twice, and no scripted grant is
/// already allocated.
pub open spec fn mem_wf(m: MemoryView) -> bool {
    &&& forall|i: int| 0 <= i < m.grants.len() ==> page_aligned(#[trigger] m.grants[i])
    &&& forall|i: int, j: int|
        0 <= i < j < m.grants.len() ==> m.grants[i] != m.grants[j]
    &&& forall|i: int| 0 <= i < m.pages.len() ==> page_aligned((#[trigger] m.pages[i]).0)
    &&& forall|i: int, j: int| 0 <= i < j < m.pages.len() ==> m.pages[i].0 != m.pages[j].0
    &&& forall|i: int, j: int|
        0 <= i < m.grants.len() && 0 <= j < m.pages.len() ==> m.grants[i] != m.pages[j].0
}

/// One allocation, as a transition of the model: the head of the grant
/// script becomes a freshly zero-filled page, or nothing changes and no
/// address is granted when the script is exhausted (the firmware is out of
/// boot-scratch memory).
pub open spec fn allocate_spec(m: MemoryView) -> (MemoryView, Option<u64>) {
    if m.grants.len() == 0 {
        (m, None)
    } else {
        (
            MemoryView {
                grants: m.grants.drop_first(),
                pages: m.pages.push((m.grants[0], zero_page_bytes())),
            },
            Some(m.grants[0]),
        )
    }
}

/// One release, as a transition of the model: succeeds exactly when a page
/// at `start` is allocated; the page leaves the allocated set and its
/// address returns to the firmware's pool.
pub open spec fn deallocate_spec(m: MemoryView, start: u64) -> (MemoryView, bool) {
    let i = page_index(m.pages, start);
    if i >= 0 {
        (MemoryView { grants: m.grants.push(start), pages: m.pages.remove(i) }, true)
    } else {
        (m, false)
    }
}

/// Whether a grant script may seed the model: all addresses page-aligned and
/// pairwise distinct.
pub open spec fn valid_grant_script(grants: Seq<u64>) -> bool {
    &&& forall|i: int| 0 <= i < grants.len() ==> page_aligned(#[trigger] grants[i])
    &&& forall|i: int, j: int| 0 <= i < j < grants.len() ==> grants[i] != grants[j]
}

/// The Frame Allocator Bridge over the modeled firmware page pool.
pub struct BootMemory {
    grants: Vec<u64>,
    pages: Vec<PageEntry>,
}

impl View for BootMemory {
    type V = MemoryView;

    closed spec fn view(&self) -> MemoryView {
        MemoryView {
            grants: self.grants@,
            pages: Seq::new(
                self.pages@.len(),
                |i: int| (self.pages@[i].start, self.pages@[i].bytes@),
            ),
        }
    }
}

/// First-match characterization of [`page_index`].
pub proof fn lemma_page_index(pages: Seq<(u64, Seq<u8>)>, start: u64)
    ensures
        page_index(pages, start) >= 0 ==> {
            let i = page_index(pages, start);
            &&& 0 <= i < pages.len()
            &&& pages[i].0 == start
            &&& forall|k: int| 0 <= k < i ==> (#[trigger] pages[k]).0 != start
        },
        page_index(pages, start) < 0 ==> forall|k: int|
            0 <= k < pages.len() ==> (#[trigger] pages[k]).0 != start,
    decreases pages.len(),
{
    if pages.len() == 0 {
    } else if pages[0].0 == start {
    } else {
        let rest = pages.drop_first();
        lemma_page_index(rest, start);
        let r = page_index(rest, start);
        if r >= 0 {
            assert(page_index(pages, start) == r + 1);
            assert(pages[r + 1] == rest[r]);
            assert forall|k: int| 0 <= k < r + 1 implies (#[trigger] pages[k]).0 != start by {
                if k >= 1 {
                    assert(pages[k] == rest[k - 1]);
                }
            }
        } else {
            assert forall|k: int| 0 <= k < pages.len() implies (#[trigger] pages[k]).0
                != start by {
                if k >= 1 {
                    assert(pages[k] == rest[k - 1]);
                }
            }
        }
    }
}

/// A freshly zero-filled page as a concrete vector.
fn zero_page() -> (v: Vec<u8>)
    ensures
        v@ == zero_page_bytes(),
{
    let mut v: Vec<u8> = Vec::new();
    let mut i: usize = 0;
    while i < PAGE_SIZE
        invariant
            i <= PAGE_SIZE,
            v@.len() == i,
            forall|k: int| 0 <= k < i ==> v@[k] == 0u8,
        decreases PAGE_SIZE - i,
    {
        v.push(0u8);
        i = i + 1;
    }
    proof {
        assert(v@ =~= zero_page_bytes());
    }
    v
}

/// Index of the first entry at `start`, searched like [`page_index`].
fn find_page(pages: &Vec<PageEntry>, start: u64) -> (r: Option<usize>)
    ensures
        match r {
            Some(i) => {
                &&& (i as int) < pages@.len()
                &&& pages@[i as int].start == start
                &&& forall|k: int| 0 <= k < i ==> (#[trigger] pages@[k]).start != start
            },
            None => forall|k: int|
                0 <= k < pages@.len() ==> (#[trigger] pages@[k]).start != start,
        },
{
    let n = pages.len();
    let mut i: usize = 0;
    while i < n
        invariant
            i <= n,
            n == pages@.len(),
            forall|k: int| 0 <= k < i ==> (#[trigger] pages@[k]).start != start,
        decreases n - i,
    {
        if pages[i].start == start {
            return Some(i);
        }
        i = i + 1;
    }
    None
}

impl BootMemory {
    /// Seeds the model with the addresses the firmware will grant, in order.
    /// Rejects a script that repeats an address or holds one that is not
    /// page-aligned.
    pub fn new(grants: Vec<u64>) -> (r: Option<BootMemory>)
        ensures
            r is Some <==> valid_grant_script(grants@),
            r matches Some(m) ==> {
                &&& m@.grants == grants@
                &&& m@.pages.len() == 0
                &&& mem_wf(m@)
            },
    {
        let n = grants.len();
        let mut i: usize = 0;
        while i < n
            invariant
                i <= n,
                n == grants@.len(),
                forall|k: int| 0 <= k < i ==> page_aligned(#[trigger] grants@[k]),
                forall|k: int, l: int| 0 <= k < l < i ==> grants@[k] != grants@[l],
            decreases n - i,
        {
            if grants[i] % (PAGE_SIZE as u64) != 0 {
                return None;
            }
            let mut j: usize = 0;
            while j < i
                invariant
                    j <= i,
                    i < n,
                    n == grants@.len(),
                    forall|k: int| 0 <= k < j ==> grants@[k] != grants@[i as int],
                decreases i - j,
            {
                if grants[j] == grants[i] {
                    return None;
                }
                j = j + 1;
            }
            i = i + 1;
        }
        let m = BootMemory { grants, pages: Vec::new() };
        proof {
            assert(m@.pages =~= Seq::<(u64, Seq<u8>)>::empty());
        }
        Some(m)
    }

    /// Requests one page of boot-scratch memory at a firmware-chosen
    /// address, zero-fills it in full, and returns its frame descriptor.
    ///
    /// Succeeds exactly when the firmware can still satisfy the request; the
    /// returned frame is page-aligned, every one of its [`PAGE_SIZE`] bytes
    /// is zero, and its page was not previously in use. A rejected request
    /// is reported as a failed allocation call and changes nothing; the
    /// bridge never retries.
    pub fn allocate_frame(&mut self) -> (r: Result<Frame, Error>)
        requires
            mem_wf(old(self)@),
        ensures
            mem_wf(final(self)@),
            ({
                let (m2, granted) = allocate_spec(old(self)@);
                &&& final(self)@ == m2
                &&& match r {
                    Ok(f) => {
                        &&& granted == Some(f.spec_start())
                        &&& f.wf()
                        &&& !has_page(old(self)@, f.spec_start())
                    },
                    Err(e) => {
                        &&& granted is None
                        &&& e@ == ErrorView::FirmwareCallFailed(FirmwareCall::AllocatePages)
                    },
                }
            }),
    {
        if self.grants.len() == 0 {
            return Err(Error::FirmwareCallFailed(FirmwareCall::AllocatePages));
        }
        let start = self.grants.remove(0);
        let bytes = zero_page();
        self.pages.push(PageEntry { start, bytes });
        proof {
            let m2 = allocate_spec(old(self)@).0;
            assert(self@.grants =~= m2.grants);
            assert(self@.pages =~~= m2.pages);
            assert(self@ =~~= m2);
            lemma_page_index(old(self)@.pages, start);
            if page_index(old(self)@.pages, start) >= 0 {
                let i = page_index(old(self)@.pages, start);
                assert(old(self)@.pages[i].0 == old(self)@.grants[0]);
                assert(false);
            }
        }
        let f = Frame::new(start);
        Ok(f)
    }

    /// Releases exactly one page at the frame's address back to the
    /// firmware.
    ///
    /// Succeeds exactly when the page is currently allocated through this
    /// bridge; any other address — never allocated, or already released — is
    /// rejected by the firmware and reported as a failed release call, with
    /// no other effect.
    pub fn deallocate_frame(&mut self, frame: Frame) -> (r: Result<(), Error>)
        requires
            mem_wf(old(self)@),
        ensures
            mem_wf(final(self)@),
            ({
                let (m2, released) = deallocate_spec(old(self)@, frame.spec_start());
                &&& final(self)@ == m2
                &&& match r {
                    Ok(_) => released,
                    Err(e) => {
                        &&& !released
                        &&& e@ == ErrorView::FirmwareCallFailed(FirmwareCall::FreePages)
                    },
                }
            }),
    {
        let start = frame.start_address();
        proof {
            lemma_page_index(old(self)@.pages, frame.spec_start());
        }
        match find_page(&self.pages, start) {
            None => {
                proof {
                    if page_index(old(self)@.pages, start) >= 0 {
                        let i = page_index(old(self)@.pages, start);
                        assert(old(self)@.pages[i].0 == start);
                        assert(false);
                    }
                }
                Err(Error::FirmwareCallFailed(FirmwareCall::FreePages))
            },
            Some(i) => {
                self.pages.remove(i);
                self.grants.push(start);
                proof {
                    let iv = page_index(old(self)@.pages, start);
                    assert(old(self)@.pages[i as int].0 == start);
                    assert(iv == i as int);
                    let m2 = deallocate_spec(old(self)@, start).0;
                    assert(self@.grants =~= m2.grants);
                    assert(self@.pages =~~= m2.pages);
                    assert(self@ =~~= m2);
                    lemma_deallocate_wf(old(self)@, start);
                }
                Ok(())
            },
        }
    }

    /// The current contents of the allocated page at `start`, or `None`
    /// when no such page is allocated. This is how the hypervisor's checks
    /// read a frame back out of the model.
    pub fn page_contents(&self, start: u64) -> (r: Option<&Vec<u8>>)
        ensures
            match r {
                Some(v) => has_page(self@, start) && v@ == page_bytes(self@, start),
                None => !has_page(self@, start),
            },
    {
        proof {
            lemma_page_index(self@.pages, start);
        }
        match find_page(&self.pages, start) {
            None => {
                proof {
                    if page_index(self@.pages, start) >= 0 {
                        let i = page_index(self@.pages, start);
                        assert(self@.pages[i].0 == start);
                        assert(false);
                    }
                }
                None
            },
            Some(i) => {
                proof {
                    let iv = page_index(self@.pages, start);
                    assert(self@.pages[i as int].0 == start);
                    assert(iv == i as int);
                }
                Some(&self.pages[i].bytes)
            },
        }
    }
}

/// A release preserves well-formedness of the model.
proof fn lemma_deallocate_wf(m: MemoryView, start: u64)
    requires
        mem_wf(m),
        has_page(m, start),
    ensures
        mem_wf(deallocate_spec(m, start).0),
{
    let i = page_index(m.pages, start);
    lemma_page_index(m.pages, start);
    let m2 = deallocate_spec(m, start).0;
    assert(forall|k: int|
        0 <= k < m2.pages.len() ==> #[trigger] m2.pages[k] == if k < i {
            m.pages[k]
        } else {
            m.pages[k + 1]
        });
    assert(forall|k: int| 0 <= k < m2.grants.len() - 1 ==> m2.grants[k] == m.grants[k]);
    assert(m2.grants[m2.grants.len() - 1] == start);
    assert(m.pages[i].0 == start);
    assert(forall|k: int| 0 <= k < m.grants.len() ==> #[trigger] m.grants[k] != start);
    assert(forall|k: int, l: int|
        0 <= k < l < m2.grants.len() ==> m2.grants[k] != m2.grants[l]) by {
        assert(forall|k: int|
            0 <= k < m.grants.len() ==> #[trigger] m2.grants[k] == m.grants[k]);
    }
    assert(forall|k: int, l: int|
        0 <= k < m2.grants.len() && 0 <= l < m2.pages.len() ==> m2.grants[k] != m2.pages[l].0)
        by {
        assert(forall|l: int|
            0 <= l < m2.pages.len() ==> (#[trigger] m2.pages[l]).0 != start);
    }
}

/// Law: a freshly allocated frame is entirely zero-filled — every one of its
/// [`PAGE_SIZE`] bytes reads as zero immediately after a successful
/// allocation.
pub proof fn lemma_allocated_frame_zeroed(m: MemoryView)
    requires
        mem_wf(m),
        m.grants.len() > 0,
    ensures
        ({
            let (m2, granted) = allocate_spec(m);
            &&& granted matches Some(a)
            &&& has_page(m2, granted->Some_0)
            &&& page_bytes(m2, granted->Some_0).len() == PAGE_SIZE
            &&& forall|i: int|
                0 <= i < PAGE_SIZE ==> page_bytes(m2, granted->Some_0)[i] == 0u8
        }),
{
    let (m2, granted) = allocate_spec(m);
    let a = m.grants[0];
    lemma_page_index(m2.pages, a);
    if page_index(m2.pages, a) < 0 {
        assert(m2.pages[m2.pages.len() - 1].0 == a);
        assert(false);
    }
    let i = page_index(m2.pages, a);
    if i < m2.pages.len() - 1 {
        assert(m2.pages[i] == m.pages[i]);
        assert(false);
    }
    assert(page_bytes(m2, a) == zero_page_bytes());
}

/// Law: allocation and release pair up — a release of the frame a
/// successful allocation just returned succeeds.
pub proof fn lemma_allocate_then_deallocate(m: MemoryView)
    requires
        mem_wf(m),
        m.grants.len() > 0,
    ensures
        ({
            let (m2, granted) = allocate_spec(m);
            &&& granted matches Some(a)
            &&& deallocate_spec(m2, granted->Some_0).1
        }),
{
    let (m2, granted) = allocate_spec(m);
    let a = m.grants[0];
    lemma_page_index(m2.pages, a);
    if page_index(m2.pages, a) < 0 {
        assert(m2.pages[m2.pages.len() - 1].0 == a);
        assert(false);
    }
}

/// Law: releasing a page that this bridge never allocated (or has already
/// released) fails.
pub proof fn lemma_deallocate_unallocated(m: MemoryView, start: u64)
    requires
        !has_page(m, start),
    ensures
        !deallocate_spec(m, start).1,
        deallocate_spec(m, start).0 == m,
{
}

} // verus!
