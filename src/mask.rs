use vstd::prelude::*;

verus! {

/// A single host subsystem that a driver can ask to have enabled.
#[derive(Clone, Copy, Debug, PartialEq, Eq, Structural)]
pub enum ConnectionRequest {
    HidInput,
    HidInputForce,
    HidRaw,
    HidDev,
    HidDevForce,
    FF,
    Driver,
}

/// Number of defined capability flags; flag bits live below this index.
pub const FLAG_COUNT: u32 = 7;

impl ConnectionRequest {
    /// Bit position of this flag in the host's connect mask.
    pub open spec fn index_spec(self) -> u32 {
        match self {
            ConnectionRequest::HidInput => 0,
            ConnectionRequest::HidInputForce => 1,
            ConnectionRequest::HidRaw => 2,
            ConnectionRequest::HidDev => 3,
            ConnectionRequest::HidDevForce => 4,
            ConnectionRequest::FF => 5,
            ConnectionRequest::Driver => 6,
        }
    }

    #[verifier::when_used_as_spec(index_spec)]
    pub fn index(self) -> (r: u32)
        ensures
            r == self.index_spec(),
            r < FLAG_COUNT,
    {
        match self {
            ConnectionRequest::HidInput => 0,
            ConnectionRequest::HidInputForce => 1,
            ConnectionRequest::HidRaw => 2,
            ConnectionRequest::HidDev => 3,
            ConnectionRequest::HidDevForce => 4,
            ConnectionRequest::FF => 5,
            ConnectionRequest::Driver => 6,
        }
    }
}

pub open spec fn bit_spec(x: u32) -> u32 {
    1u32 << x
}

/// The single-bit value `1 << x`.
#[verifier::when_used_as_spec(bit_spec)]
pub fn bit(x: u32) -> (r: u32)
    requires
        x < 32,
    ensures
        r == bit_spec(x),
{
    1u32 << x
}


/// A set of capability flags, held as the host's connect-mask bits.
#[derive(Clone, Copy, Debug, PartialEq, Eq, Structural)]
pub struct ConnectionMask(pub u32);

/// Every flag whose bit is set in `bits`.
pub open spec fn flags_of(bits: u32) -> Set<ConnectionRequest> {
    Set::new(|q: ConnectionRequest| bits & bit_spec(q.index_spec()) != 0)
}

/// Flag bits beyond the defined flags are never set.
pub open spec fn defined_bits(bits: u32) -> bool {
    bits < 128
}

/// `m` is what composing the flags of `flags` yields.
pub open spec fn composed_from(m: ConnectionMask, flags: Seq<ConnectionRequest>) -> bool {
    m.wf() && m@ == flags.to_set()
}

impl View for ConnectionMask {
    type V = Set<ConnectionRequest>;

    open spec fn view(&self) -> Set<ConnectionRequest> {
        flags_of(self.0)
    }
}

proof fn lemma_or_bit(a: u32, x: u32, i: u32)
    requires
        x < 32,
        i < 32,
    ensures
        (a | (1u32 << x)) & (1u32 << i) != 0 <==> (a & (1u32 << i) != 0 || x == i),
{
    assert((a | (1u32 << x)) & (1u32 << i) != 0 <==> (a & (1u32 << i) != 0 || x == i))
        by (bit_vector)
        requires
            x < 32,
            i < 32,
    ;
}

proof fn lemma_or_defined(a: u32, x: u32)
    requires
        a < 128,
        x < 7,
    ensures
        a | (1u32 << x) < 128,
{
    assert(a | (1u32 << x) < 128) by (bit_vector)
        requires
            a < 128,
            x < 7,
    ;
}

proof fn lemma_bits_determine(a: u32, b: u32)
    requires
        a < 128,
        b < 128,
        (a & (1u32 << 0u32) != 0) == (b & (1u32 << 0u32) != 0),
        (a & (1u32 << 1u32) != 0) == (b & (1u32 << 1u32) != 0),
        (a & (1u32 << 2u32) != 0) == (b & (1u32 << 2u32) != 0),
        (a & (1u32 << 3u32) != 0) == (b & (1u32 << 3u32) != 0),
        (a & (1u32 << 4u32) != 0) == (b & (1u32 << 4u32) != 0),
        (a & (1u32 << 5u32) != 0) == (b & (1u32 << 5u32) != 0),
        (a & (1u32 << 6u32) != 0) == (b & (1u32 << 6u32) != 0),
    ensures
        a == b,
{
    assert(a == b) by (bit_vector)
        requires
            a < 128,
            b < 128,
            (a & (1u32 << 0u32) != 0) == (b & (1u32 << 0u32) != 0),
            (a & (1u32 << 1u32) != 0) == (b & (1u32 << 1u32) != 0),
            (a & (1u32 << 2u32) != 0) == (b & (1u32 << 2u32) != 0),
            (a & (1u32 << 3u32) != 0) == (b & (1u32 << 3u32) != 0),
            (a & (1u32 << 4u32) != 0) == (b & (1u32 << 4u32) != 0),
            (a & (1u32 << 5u32) != 0) == (b & (1u32 << 5u32) != 0),
            (a & (1u32 << 6u32) != 0) == (b & (1u32 << 6u32) != 0),
    ;
}

proof fn lemma_index_injective(x: ConnectionRequest, y: ConnectionRequest)
    ensures
        x.index_spec() == y.index_spec() <==> x == y,
{
}

/// Two well-formed masks holding the same flags are the same mask.
pub proof fn lemma_mask_view_injective(m1: ConnectionMask, m2: ConnectionMask)
    requires
        m1.wf(),
        m2.wf(),
        m1@ == m2@,
    ensures
        m1 == m2,
{
    let a = m1.0;
    let b = m2.0;
    assert(flags_of(a).contains(ConnectionRequest::HidInput) == flags_of(b).contains(ConnectionRequest::HidInput));
    assert(flags_of(a).contains(ConnectionRequest::HidInputForce) == flags_of(b).contains(ConnectionRequest::HidInputForce));
    assert(flags_of(a).contains(ConnectionRequest::HidRaw) == flags_of(b).contains(ConnectionRequest::HidRaw));
    assert(flags_of(a).contains(ConnectionRequest::HidDev) == flags_of(b).contains(ConnectionRequest::HidDev));
    assert(flags_of(a).contains(ConnectionRequest::HidDevForce) == flags_of(b).contains(ConnectionRequest::HidDevForce));
    assert(flags_of(a).contains(ConnectionRequest::FF) == flags_of(b).contains(ConnectionRequest::FF));
    assert(flags_of(a).contains(ConnectionRequest::Driver) == flags_of(b).contains(ConnectionRequest::Driver));
    lemma_bits_determine(a, b);
}

/// Composing the same flags in any order gives the same mask: a mask built
/// from one list equals the mask built from any permutation of it.
pub proof fn lemma_compose_order_independent(
    a: Seq<ConnectionRequest>,
    b: Seq<ConnectionRequest>,
    ma: ConnectionMask,
    mb: ConnectionMask,
)
    requires
        a.to_multiset() == b.to_multiset(),
        composed_from(ma, a),
        composed_from(mb, b),
    ensures
        ma == mb,
{
    a.to_multiset_ensures();
    b.to_multiset_ensures();
    assert forall|x: ConnectionRequest| #[trigger] a.to_set().contains(x) == b.to_set().contains(x) by {
        assert(a.contains(x) <==> a.to_multiset().count(x) > 0);
        assert(b.contains(x) <==> b.to_multiset().count(x) > 0);
    }
    assert(a.to_set() =~= b.to_set());
    lemma_mask_view_injective(ma, mb);
}

/// Decoding a composed mask recovers exactly the flags it was composed from.
pub proof fn lemma_compose_decode_round_trip(
    flags: Seq<ConnectionRequest>,
    m: ConnectionMask,
    decoded: Seq<ConnectionRequest>,
)
    requires
        composed_from(m, flags),
        decoded.to_set() == m@,
    ensures
        decoded.to_set() == flags.to_set(),
{
}

impl ConnectionMask {
    pub open spec fn wf(self) -> bool {
        defined_bits(self.0)
    }

    pub open spec fn bits_spec(self) -> u32 {
        self.0
    }

    /// The mask that requests nothing.
    pub fn empty() -> (r: ConnectionMask)
        ensures
            r.wf(),
            r@ == Set::<ConnectionRequest>::empty(),
            r.bits_spec() == 0,
    {
        let r = ConnectionMask(0);
        assert forall|q: ConnectionRequest| !(#[trigger] r@.contains(q)) by {
            let i = q.index_spec();
            assert(0u32 & (1u32 << i) == 0) by (bit_vector);
        }
        assert(r@ =~= Set::<ConnectionRequest>::empty());
        r
    }

    /// The raw bits handed to the host.
    pub fn bits(&self) -> (r: u32)
        ensures
            r == self.bits_spec(),
    {
        self.0
    }

    /// The mask holding `self`'s flags and `req`.
    pub fn with(self, req: ConnectionRequest) -> (r: ConnectionMask)
        requires
            self.wf(),
        ensures
            r.wf(),
            r@ == self@.insert(req),
    {
        let x = req.index();
        let r = ConnectionMask(self.0 | bit(x));
        proof {
            lemma_or_defined(self.0, x);
            assert forall|q: ConnectionRequest| #[trigger] r@.contains(q) == self@.insert(req).contains(q) by {
                lemma_or_bit(self.0, x, q.index_spec());
            }
            assert(r@ =~= self@.insert(req));
        }
        r
    }

    /// The mask holding the flags of both masks.
    pub fn bitor(self, rhs: ConnectionMask) -> (r: ConnectionMask)
        requires
            self.wf(),
            rhs.wf(),
        ensures
            r.wf(),
            r@ == self@.union(rhs@),
            r.bits_spec() == self.bits_spec() | rhs.bits_spec(),
    {
        let a = self.0;
        let b = rhs.0;
        let r = ConnectionMask(a | b);
        proof {
            assert(a | b < 128) by (bit_vector)
                requires
                    a < 128,
                    b < 128,
            ;
            assert forall|q: ConnectionRequest| #[trigger] r@.contains(q) == self@.union(rhs@).contains(q) by {
                let i = q.index_spec();
                assert((a | b) & (1u32 << i) != 0 <==> (a & (1u32 << i) != 0 || b & (1u32 << i) != 0))
                    by (bit_vector);
            }
            assert(r@ =~= self@.union(rhs@));
        }
        r
    }

    /// Whether `req` is set in this mask.
    pub fn contains(&self, req: ConnectionRequest) -> (r: bool)
        ensures
            r == self@.contains(req),
    {
        self.0 & bit(req.index()) != 0
    }

    /// The flags set in this mask, each once, in bit order.
    pub fn requests(&self) -> (r: Vec<ConnectionRequest>)
        ensures
            r@.to_set() == self@,
            r@.no_duplicates(),
            forall|i: int, j: int|
                0 <= i < j < r@.len() ==> r@[i].index_spec() < r@[j].index_spec(),
    {
        let all: [ConnectionRequest; 7] = [
            ConnectionRequest::HidInput,
            ConnectionRequest::HidInputForce,
            ConnectionRequest::HidRaw,
            ConnectionRequest::HidDev,
            ConnectionRequest::HidDevForce,
            ConnectionRequest::FF,
            ConnectionRequest::Driver,
        ];
        let mut r: Vec<ConnectionRequest> = Vec::new();
        let mut k: usize = 0;
        while k < 7
            invariant
                k <= 7,
                forall|i: int| 0 <= i < 7 ==> (#[trigger] all[i]).index_spec() == i,
                forall|x: ConnectionRequest|
                    #[trigger] r@.contains(x) <==> (self@.contains(x) && x.index_spec() < k),
                forall|i: int| 0 <= i < r@.len() ==> (#[trigger] r@[i]).index_spec() < k,
                forall|i: int, j: int|
                    0 <= i < j < r@.len() ==> r@[i].index_spec() < r@[j].index_spec(),
            decreases 7 - k,
        {
            let q = all[k];
            let ghost prev = r@;
            let present = self.contains(q);
            if present {
                r.push(q);
            }
            proof {
                assert(q.index_spec() == k);
                assert forall|x: ConnectionRequest|
                    #[trigger] r@.contains(x) <==> (self@.contains(x) && x.index_spec() < k + 1) by {
                    lemma_index_injective(x, q);
                    if !present {
                        assert(r@ == prev);
                    } else {
                        assert(r@ == prev.push(q));
                        assert(r@[prev.len() as int] == q);
                        if r@.contains(x) && !prev.contains(x) {
                            let j = choose|j: int| 0 <= j < r@.len() && r@[j] == x;
                            assert(j == prev.len());
                        }
                        if prev.contains(x) {
                            let j = choose|j: int| 0 <= j < prev.len() && prev[j] == x;
                            assert(r@[j] == x);
                        }
                    }
                }
            }
            k = k + 1;
        }
        proof {
            assert forall|x: ConnectionRequest| #[trigger] r@.to_set().contains(x) == self@.contains(x) by {
                r@.to_multiset_ensures();
            }
            assert(r@.to_set() =~= self@);
        }
        r
    }
}

/// Composes the given flags into one mask; no flags give the empty mask.
pub fn compose(flags: &Vec<ConnectionRequest>) -> (r: ConnectionMask)
    ensures
        composed_from(r, flags@),
{
    let mut acc = ConnectionMask::empty();
    assert(flags@.subrange(0, 0).to_set() =~= Set::<ConnectionRequest>::empty());
    let mut k: usize = 0;
    while k < flags.len()
        invariant
            k <= flags@.len(),
            composed_from(acc, flags@.subrange(0, k as int)),
        decreases flags@.len() - k,
    {
        let ghost prev = flags@.subrange(0, k as int);
        acc = acc.with(flags[k]);
        proof {
            assert(flags@.subrange(0, k + 1) == prev.push(flags@[k as int]));
            prev.lemma_push_to_set_commute(flags@[k as int]);
        }
        k = k + 1;
    }
    assert(flags@.subrange(0, k as int) == flags@);
    acc
}

impl From<ConnectionRequest> for ConnectionMask {
    fn from(req: ConnectionRequest) -> (r: ConnectionMask) {
        ConnectionMask(bit(req.index()))
    }
}

impl vstd::std_specs::convert::FromSpecImpl<ConnectionRequest> for ConnectionMask {
    open spec fn obeys_from_spec() -> bool {
        true
    }

    open spec fn from_spec(req: ConnectionRequest) -> ConnectionMask {
        ConnectionMask(bit_spec(req.index_spec()))
    }
}

} // verus!
