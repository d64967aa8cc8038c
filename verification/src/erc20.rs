//! ERC-20 support: the Transfer event signature, the two-lane wallet
//! transfer planner (outgoing and incoming), the single-token planner,
//! transfer-log decoding, and `balanceOf` calldata.

use vstd::prelude::*;

use crate::bytes::addr_views;
use crate::bytes::indexed_address_topic;
use crate::bytes::Address;
use crate::bytes::Word32;
use crate::error::PlanError;
use crate::get_logs::log_work_item;
use crate::get_logs::normalized_topics;
use crate::get_logs::GetLogsPlan;
use crate::range::chunk_seq;
use crate::range::Range;
use crate::work::addrs_wf;
use crate::work::dup_addrs;
use crate::work::topic_views;
use crate::work::Topic;
use crate::work::TopicView;
use crate::work::WorkItem;

verus! {

/// The event signature hash of `Transfer(address,address,uint256)`, as
/// fixed by the contract ABI (the keccak-256 digest of that string).
pub open spec fn transfer_sig_bytes() -> Seq<u8> {
    seq![
        0xddu8, 0xf2u8, 0x52u8, 0xadu8, 0x1bu8, 0xe2u8, 0xc8u8, 0x9bu8, 0x69u8, 0xc2u8, 0xb0u8,
        0x68u8, 0xfcu8, 0x37u8, 0x8du8, 0xaau8, 0x95u8, 0x2bu8, 0xa7u8, 0xf1u8, 0x63u8, 0xc4u8,
        0xa1u8, 0x16u8, 0x28u8, 0xf5u8, 0x5au8, 0x4du8, 0xf5u8, 0x23u8, 0xb3u8, 0xefu8,
    ]
}

/// The all-zero 32-byte word.
pub open spec fn zero32() -> Seq<u8> {
    Seq::new(32, |i: int| 0u8)
}

/// The Transfer event signature hash as a word.
pub fn transfer_signature() -> (r: Word32)
    ensures
        r.wf(),
        r@ == transfer_sig_bytes(),
{
    let bytes: Vec<u8> = vec![
        0xdd, 0xf2, 0x52, 0xad, 0x1b, 0xe2, 0xc8, 0x9b, 0x69, 0xc2, 0xb0, 0x68, 0xfc, 0x37, 0x8d,
        0xaa, 0x95, 0x2b, 0xa7, 0xf1, 0x63, 0xc4, 0xa1, 0x16, 0x28, 0xf5, 0x5a, 0x4d, 0xf5, 0x23,
        0xb3, 0xef,
    ];
    proof {
        assert(bytes@ =~= transfer_sig_bytes());
    }
    let r = Word32::from_bytes(bytes);
    r.unwrap()
}

/// The signature the builders actually use: the one given, or the standard
/// Transfer signature when the given word is all zero.
pub open spec fn effective_sig(sig: Seq<u8>) -> Seq<u8> {
    if sig == zero32() {
        transfer_sig_bytes()
    } else {
        sig
    }
}

/// The topic view of an indexed address: 12 zero bytes then the address.
pub open spec fn address_topic_bytes(a: Seq<u8>) -> Seq<u8> {
    Seq::new(32, |i: int| if i < 12 {
        0u8
    } else {
        a[i - 12]
    })
}

/// The four topic slots of the outgoing lane: signature, then the watched
/// wallet as the `from` argument.
pub open spec fn from_lane_topics(sig: Seq<u8>, wallet: Seq<u8>) -> Seq<TopicView> {
    seq![
        TopicView::One(sig),
        TopicView::One(address_topic_bytes(wallet)),
        TopicView::Any,
        TopicView::Any,
    ]
}

/// The four topic slots of the incoming lane: signature, then the watched
/// wallet as the `to` argument.
pub open spec fn to_lane_topics(sig: Seq<u8>, wallet: Seq<u8>) -> Seq<TopicView> {
    seq![
        TopicView::One(sig),
        TopicView::Any,
        TopicView::One(address_topic_bytes(wallet)),
        TopicView::Any,
    ]
}

/// The four topic slots of a single-token stream: signature only.
pub open spec fn token_lane_topics(sig: Seq<u8>) -> Seq<TopicView> {
    seq![TopicView::One(sig), TopicView::Any, TopicView::Any, TopicView::Any]
}

/// Resolve the configured signature word: the given one, or the standard
/// Transfer signature when it is all zero.
fn resolve_sig(sig: &Word32) -> (r: Word32)
    requires
        sig.wf(),
    ensures
        r.wf(),
        r@ == effective_sig(sig@),
{
    if sig.is_zero() {
        proof {
            assert(sig@ =~= zero32());
        }
        transfer_signature()
    } else {
        proof {
            let i = choose|i: int| 0 <= i < 32 && sig@[i] != 0;
            assert(zero32()[i] == 0);
        }
        sig.dup()
    }
}

/// Wallet-centric transfer search: plans the two log-query lanes for
/// transfers where the watched wallet is the sender or the receiver.
pub struct Erc20WalletTransfersBuilder {
    pub watched: Address,
    pub from: u64,
    pub to: u64,
    pub chunk_size: u64,
    pub tokens: Vec<Address>,
    pub max_blocks: u64,
    pub max_tokens: usize,
    pub transfer_sig: Word32,
}

impl Erc20WalletTransfersBuilder {
    pub open spec fn wf(self) -> bool {
        &&& self.watched.wf()
        &&& self.chunk_size >= 1
        &&& self.max_blocks >= 1
        &&& self.max_tokens >= 1
        &&& addrs_wf(self.tokens@)
        &&& self.transfer_sig.wf()
    }

    /// Whether the configured range and token list pass validation.
    pub open spec fn valid(self) -> bool {
        &&& self.from <= self.to
        &&& self.to - self.from + 1 <= self.max_blocks
        &&& self.tokens@.len() <= self.max_tokens
    }

    /// A builder over `[from, to]` watching `watched`, with the default
    /// chunk size and caps.  An all-zero `transfer_sig` means the standard
    /// Transfer signature.
    pub fn new(watched: Address, from: u64, to: u64, transfer_sig: Word32) -> (r:
        Erc20WalletTransfersBuilder)
        requires
            watched.wf(),
            transfer_sig.wf(),
        ensures
            r.wf(),
            r == (Erc20WalletTransfersBuilder {
                watched: r.watched,
                from,
                to,
                chunk_size: 10000u64,
                tokens: r.tokens,
                max_blocks: 1000000u64,
                max_tokens: 50000usize,
                transfer_sig: r.transfer_sig,
            }),
            r.watched@ == watched@,
            r.tokens@.len() == 0,
            r.transfer_sig@ == transfer_sig@,
    {
        Erc20WalletTransfersBuilder {
            watched,
            from,
            to,
            chunk_size: 10000,
            tokens: Vec::new(),
            max_blocks: 1000000,
            max_tokens: 50000,
            transfer_sig,
        }
    }

    /// Set the chunk size, silently clamped to at least one block.
    pub fn chunk_size(self, n: u64) -> (r: Erc20WalletTransfersBuilder)
        ensures
            r == (Erc20WalletTransfersBuilder {
                chunk_size: if n >= 1 { n } else { 1u64 },
                ..self
            }),
    {
        let c: u64 = if n >= 1 {
            n
        } else {
            1
        };
        Erc20WalletTransfersBuilder { chunk_size: c, ..self }
    }

    /// Restrict the search to an allow-list of token contracts.
    pub fn tokens(self, addrs: Vec<Address>) -> (r: Erc20WalletTransfersBuilder)
        requires
            addrs_wf(addrs@),
        ensures
            r == (Erc20WalletTransfersBuilder { tokens: addrs, ..self }),
    {
        Erc20WalletTransfersBuilder { tokens: addrs, ..self }
    }

    /// Set the caps, each silently clamped to at least one.
    pub fn limits(self, max_blocks: u64, max_tokens: usize) -> (r: Erc20WalletTransfersBuilder)
        ensures
            r == (Erc20WalletTransfersBuilder {
                max_blocks: if max_blocks >= 1 { max_blocks } else { 1u64 },
                max_tokens: if max_tokens >= 1 { max_tokens } else { 1usize },
                ..self
            }),
    {
        let mb: u64 = if max_blocks >= 1 {
            max_blocks
        } else {
            1
        };
        let mt: usize = if max_tokens >= 1 {
            max_tokens
        } else {
            1
        };
        Erc20WalletTransfersBuilder { max_blocks: mb, max_tokens: mt, ..self }
    }

    /// Both lanes' work items in one vector: first the outgoing lane, then
    /// the incoming lane.
    pub fn work_items(self) -> (r: Result<Vec<WorkItem>, PlanError>)
        requires
            self.wf(),
        ensures
            r matches Err(PlanError::InvalidRange) <==> self.to < self.from,
            r matches Err(PlanError::RangeTooLarge) <==> (self.from <= self.to && self.to
                - self.from + 1 > self.max_blocks),
            r matches Err(PlanError::TooManyTokens) <==> (self.from <= self.to && self.to
                - self.from + 1 <= self.max_blocks && self.tokens@.len() > self.max_tokens),
            r matches Ok(out) ==> {
                let cs = chunk_seq(self.from, self.to, self.chunk_size);
                let sig = effective_sig(self.transfer_sig@);
                &&& self.valid()
                &&& out@.len() == 2 * cs.len()
                &&& forall|i: int|
                    0 <= i < cs.len() ==> (#[trigger] out@[i])@ == log_work_item(
                        cs[i],
                        addr_views(self.tokens@),
                        from_lane_topics(sig, self.watched@),
                    )
                &&& forall|i: int|
                    0 <= i < cs.len() ==> (#[trigger] out@[cs.len() + i])@ == log_work_item(
                        cs[i],
                        addr_views(self.tokens@),
                        to_lane_topics(sig, self.watched@),
                    )
            },
            r is Ok <==> self.valid(),
    {
        let split = self.plan_split()?;
        let (mut from_items, mut to_items, _range) = split;
        let ghost from_len = from_items@.len();
        from_items.append(&mut to_items);
        Ok(from_items)
    }

    /// The two lanes separately: `(outgoing, incoming, range)`.  The lanes
    /// must be ordered independently; mixing them would duplicate keys.
    pub fn plan_split(self) -> (r: Result<(Vec<WorkItem>, Vec<WorkItem>, Range), PlanError>)
        requires
            self.wf(),
        ensures
            r matches Err(PlanError::InvalidRange) <==> self.to < self.from,
            r matches Err(PlanError::RangeTooLarge) <==> (self.from <= self.to && self.to
                - self.from + 1 > self.max_blocks),
            r matches Err(PlanError::TooManyTokens) <==> (self.from <= self.to && self.to
                - self.from + 1 <= self.max_blocks && self.tokens@.len() > self.max_tokens),
            r matches Ok(out) ==> {
                let cs = chunk_seq(self.from, self.to, self.chunk_size);
                let sig = effective_sig(self.transfer_sig@);
                &&& self.valid()
                &&& out.2 == (Range { from: self.from, to: self.to })
                &&& out.0@.len() == cs.len()
                &&& out.1@.len() == cs.len()
                &&& forall|i: int|
                    0 <= i < cs.len() ==> (#[trigger] out.0@[i])@ == log_work_item(
                        cs[i],
                        addr_views(self.tokens@),
                        from_lane_topics(sig, self.watched@),
                    )
                &&& forall|i: int|
                    0 <= i < cs.len() ==> (#[trigger] out.1@[i])@ == log_work_item(
                        cs[i],
                        addr_views(self.tokens@),
                        to_lane_topics(sig, self.watched@),
                    )
            },
            r is Ok <==> self.valid(),
    {
        if self.to < self.from {
            return Err(PlanError::InvalidRange);
        }
        if self.to - self.from > self.max_blocks - 1 {
            return Err(PlanError::RangeTooLarge);
        }
        if self.tokens.len() > self.max_tokens {
            return Err(PlanError::TooManyTokens);
        }
        let sig = resolve_sig(&self.transfer_sig);
        let wallet_topic = indexed_address_topic(&self.watched);
        proof {
            assert(wallet_topic@ =~= address_topic_bytes(self.watched@));
        }
        let range = Range { from: self.from, to: self.to };

        let from_topics: Vec<Topic> = vec![
            Topic::One(sig.dup()),
            Topic::One(wallet_topic.dup()),
            Topic::Any,
            Topic::Any,
        ];
        let from_plan = GetLogsPlan {
            range,
            chunk_size: self.chunk_size,
            addresses: dup_addrs(&self.tokens),
            topics: from_topics,
        };
        proof {
            assert(normalized_topics(topic_views(from_plan.topics@)) =~= from_lane_topics(
                effective_sig(self.transfer_sig@),
                self.watched@,
            ));
        }
        let from_items = from_plan.plan();

        let to_topics: Vec<Topic> = vec![
            Topic::One(sig),
            Topic::Any,
            Topic::One(wallet_topic),
            Topic::Any,
        ];
        let to_plan = GetLogsPlan {
            range,
            chunk_size: self.chunk_size,
            addresses: dup_addrs(&self.tokens),
            topics: to_topics,
        };
        proof {
            assert(normalized_topics(topic_views(to_plan.topics@)) =~= to_lane_topics(
                effective_sig(self.transfer_sig@),
                self.watched@,
            ));
        }
        let to_items = to_plan.plan();

        Ok((from_items, to_items, range))
    }
}

/// Token-centric transfer search: every transfer of one token contract.
pub struct Erc20TokenTransfersBuilder {
    pub token: Address,
    pub from: u64,
    pub to: u64,
    pub chunk_size: u64,
    pub max_blocks: u64,
    pub transfer_sig: Word32,
}

impl Erc20TokenTransfersBuilder {
    pub open spec fn wf(self) -> bool {
        &&& self.token.wf()
        &&& self.chunk_size >= 1
        &&& self.max_blocks >= 1
        &&& self.transfer_sig.wf()
    }

    /// Whether the configured range passes validation.
    pub open spec fn valid(self) -> bool {
        &&& self.from <= self.to
        &&& self.to - self.from + 1 <= self.max_blocks
    }

    /// A builder over `[from, to]` for the transfers of `token`, with the
    /// default chunk size and cap.  An all-zero `transfer_sig` means the
    /// standard Transfer signature.
    pub fn new(token: Address, from: u64, to: u64, transfer_sig: Word32) -> (r:
        Erc20TokenTransfersBuilder)
        requires
            token.wf(),
            transfer_sig.wf(),
        ensures
            r.wf(),
            r.token@ == token@,
            r.from == from,
            r.to == to,
            r.chunk_size == 10000,
            r.max_blocks == 1000000,
            r.transfer_sig@ == transfer_sig@,
    {
        Erc20TokenTransfersBuilder {
            token,
            from,
            to,
            chunk_size: 10000,
            max_blocks: 1000000,
            transfer_sig,
        }
    }

    /// Set the chunk size, silently clamped to at least one block.
    pub fn chunk_size(self, n: u64) -> (r: Erc20TokenTransfersBuilder)
        ensures
            r == (Erc20TokenTransfersBuilder {
                chunk_size: if n >= 1 { n } else { 1u64 },
                ..self
            }),
    {
        let c: u64 = if n >= 1 {
            n
        } else {
            1
        };
        Erc20TokenTransfersBuilder { chunk_size: c, ..self }
    }

    /// Set the block-span cap, silently clamped to at least one.
    pub fn limits(self, max_blocks: u64) -> (r: Erc20TokenTransfersBuilder)
        ensures
            r == (Erc20TokenTransfersBuilder {
                max_blocks: if max_blocks >= 1 { max_blocks } else { 1u64 },
                ..self
            }),
    {
        let mb: u64 = if max_blocks >= 1 {
            max_blocks
        } else {
            1
        };
        Erc20TokenTransfersBuilder { max_blocks: mb, ..self }
    }

    /// One ordered stream of work items filtering by the token contract.
    pub fn plan(self) -> (r: Result<(Vec<WorkItem>, Range), PlanError>)
        requires
            self.wf(),
        ensures
            r matches Err(PlanError::InvalidRange) <==> self.to < self.from,
            r matches Err(PlanError::RangeTooLarge) <==> (self.from <= self.to && self.to
                - self.from + 1 > self.max_blocks),
            r is Ok <==> self.valid(),
            r matches Ok(out) ==> {
                let cs = chunk_seq(self.from, self.to, self.chunk_size);
                let sig = effective_sig(self.transfer_sig@);
                &&& out.1 == (Range { from: self.from, to: self.to })
                &&& out.0@.len() == cs.len()
                &&& forall|i: int|
                    0 <= i < cs.len() ==> (#[trigger] out.0@[i])@ == log_work_item(
                        cs[i],
                        seq![self.token@],
                        token_lane_topics(sig),
                    )
            },
    {
        if self.to < self.from {
            return Err(PlanError::InvalidRange);
        }
        if self.to - self.from > self.max_blocks - 1 {
            return Err(PlanError::RangeTooLarge);
        }
        let sig = resolve_sig(&self.transfer_sig);
        let range = Range { from: self.from, to: self.to };
        let addresses: Vec<Address> = vec![self.token.dup()];
        let topics: Vec<Topic> = vec![Topic::One(sig), Topic::Any, Topic::Any, Topic::Any];
        let plan = GetLogsPlan { range, chunk_size: self.chunk_size, addresses, topics };
        proof {
            assert(addr_views(plan.addresses@) =~= seq![self.token@]);
            assert(normalized_topics(topic_views(plan.topics@)) =~= token_lane_topics(
                effective_sig(self.transfer_sig@),
            ));
        }
        let items = plan.plan();
        Ok((items, range))
    }
}

/// One raw log entry, as the transport hands it back: the emitting
/// contract, the topic words, and the data payload.
pub struct LogEntry {
    pub address: Address,
    pub topics: Vec<Word32>,
    pub data: Vec<u8>,
}

impl LogEntry {
    pub open spec fn wf(self) -> bool {
        &&& self.address.wf()
        &&& forall|i: int| 0 <= i < self.topics@.len() ==> (#[trigger] self.topics@[i]).wf()
    }
}

/// A decoded ERC-20 Transfer event.  The value is the raw 32-byte
/// big-endian amount word.
pub struct TransferEvent {
    pub token: Address,
    pub from_addr: Address,
    pub to_addr: Address,
    pub value: Vec<u8>,
}

/// Whether a log entry is an ERC-20 Transfer event: exactly three topics,
/// the first being the Transfer signature, and one 32-byte data word.
pub open spec fn is_transfer_log(log: LogEntry) -> bool {
    &&& log.topics@.len() == 3
    &&& log.topics@[0]@ == transfer_sig_bytes()
    &&& log.data@.len() == 32
}

/// Decode a raw log as an ERC-20 Transfer.  The two indexed addresses are
/// the last 20 bytes of topics one and two.
pub fn decode_transfer_log(log: &LogEntry) -> (r: Option<TransferEvent>)
    requires
        log.wf(),
    ensures
        r is Some <==> is_transfer_log(*log),
        r matches Some(t) ==> {
            &&& t.token@ == log.address@
            &&& t.from_addr@ == log.topics@[1]@.subrange(12, 32)
            &&& t.to_addr@ == log.topics@[2]@.subrange(12, 32)
            &&& t.value@ == log.data@
            &&& t.token.wf()
            &&& t.from_addr.wf()
            &&& t.to_addr.wf()
        },
{
    if log.topics.len() != 3 {
        return None;
    }
    let sig = transfer_signature();
    if !crate::bytes::word_eq(&log.topics[0], &sig) {
        return None;
    }
    if log.data.len() != 32 {
        return None;
    }
    let from_addr = address_from_topic(&log.topics[1]);
    let to_addr = address_from_topic(&log.topics[2]);
    let mut value: Vec<u8> = Vec::new();
    let mut i: usize = 0;
    while i < 32
        invariant
            log.wf(),
            log.data@.len() == 32,
            i <= 32,
            value@.len() == i,
            forall|j: int| 0 <= j < i ==> value@[j] == log.data@[j],
        decreases 32 - i,
    {
        value.push(log.data[i]);
        i = i + 1;
    }
    proof {
        assert(value@ =~= log.data@);
    }
    Some(TransferEvent { token: log.address.dup(), from_addr, to_addr, value })
}

/// The last 20 bytes of a topic word, as an address.
pub fn address_from_topic(w: &Word32) -> (r: Address)
    requires
        w.wf(),
    ensures
        r.wf(),
        r@ == w@.subrange(12, 32),
{
    let mut bytes: Vec<u8> = Vec::new();
    let mut i: usize = 0;
    while i < 20
        invariant
            w.wf(),
            i <= 20,
            bytes@.len() == i,
            forall|j: int| 0 <= j < i ==> bytes@[j] == w@[12 + j],
        decreases 20 - i,
    {
        bytes.push(w.byte_at(12 + i));
        i = i + 1;
    }
    let r = Address::from_bytes(bytes);
    let a = r.unwrap();
    proof {
        assert(a@ =~= w@.subrange(12, 32));
    }
    a
}

/// The calldata of `balanceOf(address)`: the four selector bytes, then the
/// owner address left-padded to a 32-byte word.
pub open spec fn balance_of_calldata(owner: Seq<u8>) -> Seq<u8> {
    seq![0x70u8, 0xa0u8, 0x82u8, 0x31u8] + Seq::new(12, |i: int| 0u8) + owner
}

/// Build the `balanceOf(address)` calldata for an owner.  The selector is
/// fixed by the contract ABI (the first four bytes of the keccak-256
/// digest of `balanceOf(address)`).
pub fn encode_balance_of(owner: &Address) -> (r: Vec<u8>)
    requires
        owner.wf(),
    ensures
        r@ == balance_of_calldata(owner@),
        r@.len() == 36,
{
    let mut r: Vec<u8> = vec![0x70, 0xa0, 0x82, 0x31];
    let mut i: usize = 0;
    while i < 12
        invariant
            i <= 12,
            r@.len() == 4 + i,
            r@[0] == 0x70u8 && r@[1] == 0xa0u8 && r@[2] == 0x82u8 && r@[3] == 0x31u8,
            forall|j: int| 4 <= j < 4 + i ==> r@[j] == 0,
        decreases 12 - i,
    {
        r.push(0);
        i = i + 1;
    }
    let mut k: usize = 0;
    while k < 20
        invariant
            owner.wf(),
            k <= 20,
            r@.len() == 16 + k,
            r@[0] == 0x70u8 && r@[1] == 0xa0u8 && r@[2] == 0x82u8 && r@[3] == 0x31u8,
            forall|j: int| 4 <= j < 16 ==> r@[j] == 0,
            forall|j: int| 0 <= j < k ==> r@[16 + j] == owner@[j],
        decreases 20 - k,
    {
        r.push(owner.byte_at(k));
        k = k + 1;
    }
    proof {
        assert(r@ =~= balance_of_calldata(owner@));
    }
    r
}

} // verus!
