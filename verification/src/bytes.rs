//! Fixed-width byte values: 20-byte addresses and 32-byte words (hashes,
//! log topics), with the topic encoding for indexed addresses and the
//! stable deduplication used by the hash-based planners.

use vstd::prelude::*;

verus! {

/// A 20-byte account address.
#[derive(Clone, Debug, PartialEq, Eq, Hash)]
pub struct Address {
    bytes: Vec<u8>,
}

impl View for Address {
    type V = Seq<u8>;

    closed spec fn view(&self) -> Seq<u8> {
        self.bytes@
    }
}

impl Address {
    pub open spec fn wf(self) -> bool {
        self@.len() == 20
    }

    /// Wrap 20 raw bytes; anything of another length is refused.
    pub fn from_bytes(bytes: Vec<u8>) -> (r: Option<Address>)
        ensures
            r is Some <==> bytes@.len() == 20,
            r matches Some(a) ==> a@ == bytes@ && a.wf(),
    {
        if bytes.len() == 20 {
            Some(Address { bytes })
        } else {
            None
        }
    }

    /// The address whose 20 bytes all hold `b` (handy for tests and demos).
    pub fn repeat_byte(b: u8) -> (r: Address)
        ensures
            r.wf(),
            forall|i: int| 0 <= i < 20 ==> r@[i] == b,
    {
        let mut bytes: Vec<u8> = Vec::new();
        let mut i: usize = 0;
        while i < 20
            invariant
                i <= 20,
                bytes@.len() == i,
                forall|j: int| 0 <= j < i ==> bytes@[j] == b,
            decreases 20 - i,
        {
            bytes.push(b);
            i = i + 1;
        }
        Address { bytes }
    }

    /// Read one byte of the address.
    pub fn byte_at(&self, i: usize) -> (r: u8)
        requires
            self.wf(),
            i < 20,
        ensures
            r == self@[i as int],
    {
        self.bytes[i]
    }

    /// An owned copy with the same bytes.
    pub fn dup(&self) -> (r: Address)
        ensures
            r@ == self@,
    {
        let bytes = self.bytes.clone();
        proof {
            assert forall|i: int| 0 <= i < self.bytes@.len() implies bytes@[i]
                == self.bytes@[i] by {
            }
            assert(bytes@ =~= self.bytes@);
        }
        Address { bytes }
    }
}

/// A 32-byte word: a transaction hash, a block hash, or a log topic.
#[derive(Clone, Debug, PartialEq, Eq, Hash)]
pub struct Word32 {
    bytes: Vec<u8>,
}

impl View for Word32 {
    type V = Seq<u8>;

    closed spec fn view(&self) -> Seq<u8> {
        self.bytes@
    }
}

impl Word32 {
    pub open spec fn wf(self) -> bool {
        self@.len() == 32
    }

    /// Wrap 32 raw bytes; anything of another length is refused.
    pub fn from_bytes(bytes: Vec<u8>) -> (r: Option<Word32>)
        ensures
            r is Some <==> bytes@.len() == 32,
            r matches Some(w) ==> w@ == bytes@ && w.wf(),
    {
        if bytes.len() == 32 {
            Some(Word32 { bytes })
        } else {
            None
        }
    }

    /// The word whose 32 bytes all hold `b` (handy for tests and demos).
    pub fn repeat_byte(b: u8) -> (r: Word32)
        ensures
            r.wf(),
            forall|i: int| 0 <= i < 32 ==> r@[i] == b,
    {
        let mut bytes: Vec<u8> = Vec::new();
        let mut i: usize = 0;
        while i < 32
            invariant
                i <= 32,
                bytes@.len() == i,
                forall|j: int| 0 <= j < i ==> bytes@[j] == b,
            decreases 32 - i,
        {
            bytes.push(b);
            i = i + 1;
        }
        Word32 { bytes }
    }

    /// Read one byte of the word.
    pub fn byte_at(&self, i: usize) -> (r: u8)
        requires
            self.wf(),
            i < 32,
        ensures
            r == self@[i as int],
    {
        self.bytes[i]
    }

    /// An owned copy with the same bytes.
    pub fn dup(&self) -> (r: Word32)
        ensures
            r@ == self@,
    {
        let bytes = self.bytes.clone();
        proof {
            assert forall|i: int| 0 <= i < self.bytes@.len() implies bytes@[i]
                == self.bytes@[i] by {
            }
            assert(bytes@ =~= self.bytes@);
        }
        Word32 { bytes }
    }

    /// Whether every byte of the word is zero.  The builders treat the
    /// all-zero word as "no signature given".
    pub fn is_zero(&self) -> (r: bool)
        requires
            self.wf(),
        ensures
            r <==> (forall|i: int| 0 <= i < 32 ==> self@[i] == 0),
    {
        let mut i: usize = 0;
        while i < 32
            invariant
                self.wf(),
                i <= 32,
                forall|j: int| 0 <= j < i ==> self@[j] == 0,
            decreases 32 - i,
        {
            if self.bytes[i] != 0 {
                return false;
            }
            i = i + 1;
        }
        true
    }
}

/// Byte-wise equality of two words.
pub fn word_eq(a: &Word32, b: &Word32) -> (r: bool)
    requires
        a.wf(),
        b.wf(),
    ensures
        r <==> a@ == b@,
{
    let mut i: usize = 0;
    while i < 32
        invariant
            a.wf(),
            b.wf(),
            i <= 32,
            forall|j: int| 0 <= j < i ==> a@[j] == b@[j],
        decreases 32 - i,
    {
        if a.bytes[i] != b.bytes[i] {
            assert(a@[i as int] != b@[i as int]);
            return false;
        }
        i = i + 1;
    }
    proof {
        assert(a@ =~= b@);
    }
    true
}

/// Encode an indexed address as a log topic: 12 zero bytes, then the
/// 20 address bytes, 32 bytes in all.
pub fn indexed_address_topic(addr: &Address) -> (r: Word32)
    requires
        addr.wf(),
    ensures
        r.wf(),
        forall|i: int| 0 <= i < 12 ==> r@[i] == 0,
        forall|i: int| 0 <= i < 20 ==> r@[12 + i] == addr@[i],
{
    let mut bytes: Vec<u8> = Vec::new();
    let mut i: usize = 0;
    while i < 12
        invariant
            i <= 12,
            bytes@.len() == i,
            forall|j: int| 0 <= j < i ==> bytes@[j] == 0,
        decreases 12 - i,
    {
        bytes.push(0);
        i = i + 1;
    }
    let mut k: usize = 0;
    while k < 20
        invariant
            addr.wf(),
            k <= 20,
            bytes@.len() == 12 + k,
            forall|j: int| 0 <= j < 12 ==> bytes@[j] == 0,
            forall|j: int| 0 <= j < k ==> bytes@[12 + j] == addr@[j],
        decreases 20 - k,
    {
        bytes.push(addr.byte_at(k));
        k = k + 1;
    }
    Word32 { bytes }
}

/// The views of a sequence of words.
pub open spec fn word_views(s: Seq<Word32>) -> Seq<Seq<u8>> {
    s.map_values(|w: Word32| w@)
}

/// The views of a sequence of addresses.
pub open spec fn addr_views(s: Seq<Address>) -> Seq<Seq<u8>> {
    s.map_values(|a: Address| a@)
}

/// Stable deduplication: keep the first occurrence of each element, in
/// input order.
pub open spec fn stable_dedup(s: Seq<Seq<u8>>) -> Seq<Seq<u8>>
    decreases s.len(),
{
    if s.len() == 0 {
        Seq::empty()
    } else {
        let pre = stable_dedup(s.drop_last());
        if s.drop_last().contains(s.last()) {
            pre
        } else {
            pre.push(s.last())
        }
    }
}

/// An element occurs in the stable dedup of `s` exactly when it occurs in
/// `s` itself.
pub proof fn lemma_stable_dedup_contains(s: Seq<Seq<u8>>, x: Seq<u8>)
    ensures
        stable_dedup(s).contains(x) <==> s.contains(x),
    decreases s.len(),
{
    if s.len() > 0 {
        let dl = s.drop_last();
        let pre = stable_dedup(dl);
        let sd = stable_dedup(s);
        lemma_stable_dedup_contains(dl, x);
        assert(forall|i: int| 0 <= i < dl.len() ==> #[trigger] dl[i] == s[i]);
        if s.contains(x) {
            let i = choose|i: int| 0 <= i < s.len() && s[i] == x;
            if i < s.len() - 1 {
                assert(dl[i] == x);
                assert(dl.contains(x));
            }
            if dl.contains(s.last()) {
                assert(sd == pre);
                if x == s.last() {
                    assert(dl.contains(x));
                }
                assert(pre.contains(x));
            } else {
                assert(sd == pre.push(s.last()));
                if x == s.last() {
                    assert(sd[sd.len() - 1] == x);
                } else {
                    assert(dl.contains(x));
                    let j = choose|j: int| 0 <= j < pre.len() && pre[j] == x;
                    assert(sd[j] == x);
                }
            }
            assert(sd.contains(x));
        }
        if sd.contains(x) {
            let i = choose|i: int| 0 <= i < sd.len() && sd[i] == x;
            if dl.contains(s.last()) {
                assert(sd == pre);
                assert(pre.contains(x));
            } else {
                assert(sd == pre.push(s.last()));
                if i < sd.len() - 1 {
                    assert(pre[i] == x);
                    assert(pre.contains(x));
                } else {
                    assert(x == s.last());
                    assert(s[s.len() - 1] == x);
                }
            }
            if pre.contains(x) {
                assert(dl.contains(x));
                let j = choose|j: int| 0 <= j < dl.len() && dl[j] == x;
                assert(s[j] == x);
            }
            assert(s.contains(x));
        }
    }
}

/// Whether `h` occurs among the words of `v`.
pub fn contains_word(v: &Vec<Word32>, h: &Word32) -> (r: bool)
    requires
        h.wf(),
        forall|i: int| 0 <= i < v@.len() ==> (#[trigger] v@[i]).wf(),
    ensures
        r <==> word_views(v@).contains(h@),
{
    let mut i: usize = 0;
    while i < v.len()
        invariant
            h.wf(),
            forall|k: int| 0 <= k < v@.len() ==> (#[trigger] v@[k]).wf(),
            i <= v@.len(),
            forall|k: int| 0 <= k < i ==> v@[k]@ != h@,
        decreases v@.len() - i,
    {
        if word_eq(&v[i], h) {
            assert(word_views(v@)[i as int] == h@);
            return true;
        }
        i = i + 1;
    }
    proof {
        if word_views(v@).contains(h@) {
            let k = choose|k: int| 0 <= k < word_views(v@).len() && word_views(v@)[k] == h@;
            assert(v@[k]@ == h@);
        }
    }
    false
}

/// Drop repeated words, keeping the first occurrence of each, in order.
pub fn dedup_words(hs: &Vec<Word32>) -> (out: Vec<Word32>)
    requires
        forall|i: int| 0 <= i < hs@.len() ==> (#[trigger] hs@[i]).wf(),
    ensures
        word_views(out@) == stable_dedup(word_views(hs@)),
        forall|i: int| 0 <= i < out@.len() ==> (#[trigger] out@[i]).wf(),
{
    let mut out: Vec<Word32> = Vec::new();
    let mut i: usize = 0;
    while i < hs.len()
        invariant
            forall|k: int| 0 <= k < hs@.len() ==> (#[trigger] hs@[k]).wf(),
            i <= hs@.len(),
            forall|k: int| 0 <= k < out@.len() ==> (#[trigger] out@[k]).wf(),
            word_views(out@) == stable_dedup(word_views(hs@.subrange(0, i as int))),
        decreases hs@.len() - i,
    {
        let h = hs[i].dup();
        proof {
            let pref = word_views(hs@.subrange(0, i as int));
            let pref1 = word_views(hs@.subrange(0, i + 1));
            assert(pref1.drop_last() =~= pref);
            assert(pref1.last() == hs@[i as int]@);
            lemma_stable_dedup_contains(pref, hs@[i as int]@);
        }
        assert(h@ == hs@[i as int]@);
        if !contains_word(&out, &h) {
            out.push(h);
            proof {
                let pref1 = word_views(hs@.subrange(0, i + 1));
                assert(word_views(out@) =~= stable_dedup(pref1));
            }
        } else {
            proof {
                let pref1 = word_views(hs@.subrange(0, i + 1));
                assert(word_views(out@) =~= stable_dedup(pref1));
            }
        }
        i = i + 1;
    }
    proof {
        assert(hs@.subrange(0, hs@.len() as int) =~= hs@);
    }
    out
}

} // verus!
