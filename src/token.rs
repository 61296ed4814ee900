//! Tokens of partition keys. One value is hashed as its raw bytes; several are
//! joined with a zero byte between each two, and the whole is hashed once. A
//! key with no value gets a random token.
use vstd::prelude::*;
use crate::column::ColumnEncoder;
use crate::murmur3::{murmur3_cassandra_x64_128, murmur3_token};
use crate::wire::push_all;
use crate::worker::random_i64;

verus! {

/// The bytes that are hashed for a key made of `parts`.
pub open spec fn joined(parts: Seq<Seq<u8>>) -> Seq<u8>
    decreases parts.len(),
{
    if parts.len() == 0 {
        Seq::empty()
    } else if parts.len() == 1 {
        parts[0]
    } else {
        joined(parts.drop_last()) + seq![0u8] + parts.last()
    }
}

/// The values of a partition key, gathered for hashing.
pub struct TokenEncodeChain {
    pub len: usize,
    pub buffer: Option<Vec<u8>>,
    pub parts: Ghost<Seq<Seq<u8>>>,
}

impl TokenEncodeChain {
    /// The buffer holds the joined parts, and is there once a part is.
    pub open spec fn wf(&self) -> bool {
        &&& self.len == self.parts@.len()
        &&& (self.buffer is Some <==> self.len > 0)
        &&& self.buffer is Some ==> self.buffer->0@ == joined(self.parts@)
    }

    /// A chain with no value.
    pub fn new() -> (r: TokenEncodeChain)
        ensures
            r.wf(),
            r.parts@ == Seq::<Seq<u8>>::empty(),
    {
        let ghost parts = Seq::<Seq<u8>>::empty();
        TokenEncodeChain { len: 0, buffer: None, parts: Ghost(parts) }
    }

    /// A chain of one value.
    pub fn from_value<T: ColumnEncoder>(value: &T) -> (r: TokenEncodeChain)
        ensures
            r.wf(),
            r.parts@ == seq![value.column_bytes()],
    {
        let mut buffer: Vec<u8> = Vec::new();
        value.encode_column(&mut buffer);
        assert(buffer@ =~= value.column_bytes());
        let ghost parts = seq![value.column_bytes()];
        TokenEncodeChain { len: 1, buffer: Some(buffer), parts: Ghost(parts) }
    }

    /// Adds the values of another chain after these.
    pub fn append(&mut self, other: &TokenEncodeChain)
        requires
            old(self).wf(),
            other.wf(),
            old(self).len + other.len <= usize::MAX,
        ensures
            final(self).wf(),
            final(self).parts@ == old(self).parts@ + other.parts@,
    {
        let ghost p = self.parts@;
        match &other.buffer {
            None => {
                assert(other.parts@ =~= Seq::<Seq<u8>>::empty());
                assert(p + other.parts@ =~= p);
            },
            Some(ob) => {
                proof { lemma_joined_concat(p, other.parts@); }
                let current = self.buffer.take();
                let next = match current {
                    Some(b) => {
                        let mut b = b;
                        b.push(0);
                        push_all(&mut b, ob.as_slice());
                        assert(b@ =~= joined(p) + seq![0u8] + joined(other.parts@));
                        b
                    },
                    None => {
                        assert(p =~= Seq::<Seq<u8>>::empty());
                        assert(p + other.parts@ =~= other.parts@);
                        let mut b: Vec<u8> = Vec::new();
                        push_all(&mut b, ob.as_slice());
                        assert(b@ =~= ob@);
                        b
                    },
                };
                self.buffer = Some(next);
                self.len = self.len + other.len;
                let ghost np = p + other.parts@;
                self.parts = Ghost(np);
            },
        }
    }

    /// The chain with another chain's values added.
    pub fn chain(self, other: &TokenEncodeChain) -> (r: TokenEncodeChain)
        requires
            self.wf(),
            other.wf(),
            self.len + other.len <= usize::MAX,
        ensures
            r.wf(),
            r.parts@ == self.parts@ + other.parts@,
    {
        let mut this = self;
        this.append(other);
        this
    }

    /// The token: the hash of the joined values, or a random token for a chain
    /// with no value.
    pub fn finish(self) -> (r: i64)
        requires
            self.wf(),
        ensures
            self.len > 0 ==> r == murmur3_token(joined(self.parts@)),
    {
        match self.buffer {
            Some(b) => murmur3_cassandra_x64_128(b.as_slice()).0,
            None => random_i64(),
        }
    }
}

/// Joining two non-empty runs of parts puts a zero byte between them.
pub proof fn lemma_joined_concat(a: Seq<Seq<u8>>, b: Seq<Seq<u8>>)
    requires
        b.len() > 0,
    ensures
        a.len() > 0 ==> joined(a + b) == joined(a) + seq![0u8] + joined(b),
        a.len() == 0 ==> joined(a + b) == joined(b),
    decreases b.len(),
{
    if a.len() == 0 {
        assert(a + b =~= b);
    } else if b.len() == 1 {
        assert((a + b).drop_last() =~= a);
        assert((a + b).last() == b[0]);
    } else {
        lemma_joined_concat(a, b.drop_last());
        assert((a + b).drop_last() =~= a + b.drop_last());
        assert((a + b).last() == b.last());
        assert(joined(a + b) =~= joined(a) + seq![0u8] + joined(b));
    }
}

/// A value, or a tuple of values, that can make up a partition key.
pub trait TokenEncoder {
    /// The raw bytes of each value of the key.
    spec fn token_parts(&self) -> Seq<Seq<u8>>;

    /// The chain of the key's values.
    fn encode_token(&self) -> (r: TokenEncodeChain)
        ensures
            r.wf(),
            r.parts@ == self.token_parts(),
    ;

    /// The token of the key.
    fn token(&self) -> (r: i64)
        ensures
            self.token_parts().len() > 0 ==> r == murmur3_token(joined(self.token_parts())),
    {
        self.encode_token().finish()
    }
}

impl<T: ColumnEncoder> TokenEncoder for T {
    open spec fn token_parts(&self) -> Seq<Seq<u8>> {
        seq![self.column_bytes()]
    }

    fn encode_token(&self) -> (r: TokenEncodeChain) {
        TokenEncodeChain::from_value(self)
    }
}

/// The token of a key made of two values.
pub fn token_of_pair<A: ColumnEncoder, B: ColumnEncoder>(a: &A, b: &B) -> (r: i64)
    ensures
        r == murmur3_token(a.column_bytes() + seq![0u8] + b.column_bytes()),
{
    let first = TokenEncodeChain::from_value(a);
    let second = TokenEncodeChain::from_value(b);
    let chain = first.chain(&second);
    proof {
        assert(chain.parts@ =~= seq![a.column_bytes(), b.column_bytes()]);
        let ps = seq![a.column_bytes(), b.column_bytes()];
        assert(ps.drop_last() =~= seq![a.column_bytes()]);
    }
    chain.finish()
}

} // verus!
