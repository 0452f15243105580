use vstd::prelude::*;

verus! {

/// The identifier of a non-fungible token.
pub enum NonFungibleId {
    U256([u8; 32]),
    String(String),
    Uint32(u32),
    Uint64(u64),
}

/// A non-fungible identifier as a plain value.
pub ghost enum NonFungibleIdView {
    U256(Seq<u8>),
    String(Seq<char>),
    Uint32(u32),
    Uint64(u64),
}

impl View for NonFungibleId {
    type V = NonFungibleIdView;

    open spec fn view(&self) -> NonFungibleIdView {
        match self {
            NonFungibleId::U256(b) => NonFungibleIdView::U256(b@),
            NonFungibleId::String(s) => NonFungibleIdView::String(s@),
            NonFungibleId::Uint32(n) => NonFungibleIdView::Uint32(*n),
            NonFungibleId::Uint64(n) => NonFungibleIdView::Uint64(*n),
        }
    }
}

/// A token to mint: its identifier, its immutable data and its mutable data,
/// each data item encoded.
pub type TokenEntry = (NonFungibleId, (Vec<u8>, Vec<u8>));

pub open spec fn entry_key(e: TokenEntry) -> NonFungibleIdView {
    e.0@
}

pub open spec fn entry_value(e: TokenEntry) -> (Seq<u8>, Seq<u8>) {
    (e.1.0@, e.1.1@)
}

/// The map that inserting `entries` into `m`, in order, gives: a later entry
/// with the same identifier replaces an earlier one.
pub open spec fn insert_tokens(
    m: Map<NonFungibleIdView, (Seq<u8>, Seq<u8>)>,
    entries: Seq<TokenEntry>,
) -> Map<NonFungibleIdView, (Seq<u8>, Seq<u8>)>
    decreases entries.len(),
{
    if entries.len() == 0 {
        m
    } else {
        insert_tokens(m, entries.drop_last()).insert(
            entry_key(entries.last()),
            entry_value(entries.last()),
        )
    }
}

/// The map that inserting `entries` into `m`, in order, gives.
pub open spec fn insert_pairs(m: Map<Seq<char>, Seq<char>>, entries: Seq<(String, String)>) -> Map<
    Seq<char>,
    Seq<char>,
>
    decreases entries.len(),
{
    if entries.len() == 0 {
        m
    } else {
        insert_pairs(m, entries.drop_last()).insert(entries.last().0@, entries.last().1@)
    }
}

/// Descriptive key-value metadata of a resource. Setting a key again
/// replaces its value.
pub struct Metadata {
    entries: Vec<(String, String)>,
}

impl View for Metadata {
    type V = Map<Seq<char>, Seq<char>>;

    closed spec fn view(&self) -> Map<Seq<char>, Seq<char>> {
        insert_pairs(Map::empty(), self.entries@)
    }
}

impl Metadata {
    pub fn new() -> (r: Metadata)
        ensures
            r@ == Map::<Seq<char>, Seq<char>>::empty(),
    {
        Metadata { entries: Vec::new() }
    }

    pub fn insert(&mut self, key: String, value: String)
        ensures
            final(self)@ == old(self)@.insert(key@, value@),
    {
        let ghost old_entries = self.entries@;
        self.entries.push((key, value));
        assert(self.entries@.drop_last() =~= old_entries);
    }

    /// The entries in the order they were set; a later entry for a key
    /// replaces an earlier one.
    pub fn entries(&self) -> (r: &[(String, String)])
        ensures
            insert_pairs(Map::empty(), r@) == self@,
    {
        self.entries.as_slice()
    }
}

/// How a new resource's initial tokens are given.
pub enum MintArg {
    NonFungible { tokens: Vec<TokenEntry> },
}

/// The kind of a resource.
#[derive(Clone, Copy, PartialEq, Eq, Structural)]
pub enum ResourceType {
    Fungible,
    NonFungible,
    Confidential,
}

/// The request to the engine that creates a resource.
pub struct CreateResourceArg {
    pub resource_type: ResourceType,
    pub token_symbol: String,
    pub metadata: Metadata,
    pub mint_arg: Option<MintArg>,
}

/// A builder of a non-fungible resource: its symbol, its metadata and the
/// tokens to mint when it is created.
pub struct NonFungibleResourceBuilder {
    token_symbol: String,
    metadata: Metadata,
    tokens_ids: Vec<TokenEntry>,
}

/// A builder's content as plain values.
pub ghost struct NonFungibleResourceBuilderView {
    pub token_symbol: Seq<char>,
    pub metadata: Map<Seq<char>, Seq<char>>,
    pub tokens: Map<NonFungibleIdView, (Seq<u8>, Seq<u8>)>,
}

impl View for NonFungibleResourceBuilder {
    type V = NonFungibleResourceBuilderView;

    closed spec fn view(&self) -> NonFungibleResourceBuilderView {
        NonFungibleResourceBuilderView {
            token_symbol: self.token_symbol@,
            metadata: self.metadata@,
            tokens: insert_tokens(Map::empty(), self.tokens_ids@),
        }
    }
}

/// Inserting at least one entry gives a map with at least one key.
proof fn lemma_insert_tokens_nonempty(
    m: Map<NonFungibleIdView, (Seq<u8>, Seq<u8>)>,
    entries: Seq<TokenEntry>,
)
    requires
        entries.len() > 0,
    ensures
        insert_tokens(m, entries).dom().contains(entry_key(entries.last())),
{
}

impl NonFungibleResourceBuilder {
    /// A builder for a resource with the symbol `symbol`, no metadata and no
    /// tokens.
    pub fn new(symbol: String) -> (r: NonFungibleResourceBuilder)
        ensures
            r@.token_symbol == symbol@,
            r@.metadata == Map::<Seq<char>, Seq<char>>::empty(),
            r@.tokens == Map::<NonFungibleIdView, (Seq<u8>, Seq<u8>)>::empty(),
    {
        NonFungibleResourceBuilder { token_symbol: symbol, metadata: Metadata::new(), tokens_ids: Vec::new() }
    }

    /// Sets the metadata entry `key` to `value`.
    pub fn add_metadata(self, key: String, value: String) -> (r: NonFungibleResourceBuilder)
        ensures
            r@.token_symbol == self@.token_symbol,
            r@.metadata == self@.metadata.insert(key@, value@),
            r@.tokens == self@.tokens,
    {
        let mut b = self;
        b.metadata.insert(key, value);
        b
    }

    /// Adds tokens, in order; a token whose identifier is already present
    /// replaces the earlier one. Each token's data comes encoded.
    pub fn with_non_fungibles(self, tokens: Vec<TokenEntry>) -> (r: NonFungibleResourceBuilder)
        ensures
            r@.token_symbol == self@.token_symbol,
            r@.metadata == self@.metadata,
            r@.tokens == insert_tokens(self@.tokens, tokens@),
    {
        let ghost start = self@.tokens;
        let mut b = self;
        let ghost b0 = b;
        let mut tokens = tokens;
        let ghost all = tokens@;
        let mut rest: Vec<TokenEntry> = Vec::new();
        // Take the tokens out in reverse, then add them in their order.
        while tokens.len() > 0
            invariant
                all == tokens@ + rest@.reverse(),
            decreases tokens@.len(),
        {
            let e = tokens.pop().unwrap();
            let ghost before = rest@;
            rest.push(e);
            assert(rest@.reverse() =~= seq![e] + before.reverse());
        }
        assert(all =~= rest@.reverse());
        let n = rest.len();
        let mut i: usize = 0;
        assert(all.take(0) =~= Seq::<TokenEntry>::empty());
        while i < n
            invariant
                0 <= i <= n,
                n == all.len(),
                rest@.len() == n - i,
                forall|j: int| 0 <= j < n - i ==> #[trigger] rest@[j] == all[n - 1 - j],
                insert_tokens(Map::empty(), b.tokens_ids@) == insert_tokens(start, all.take(i as int)),
                b.token_symbol == b0.token_symbol,
                b.metadata == b0.metadata,
            decreases n - i,
        {
            let ghost before = b.tokens_ids@;
            let e = rest.pop().unwrap();
            proof {
                assert(e == all[i as int]);
            }
            b.tokens_ids.push(e);
            proof {
                assert(b.tokens_ids@.drop_last() =~= before);
                assert(all.take(i as int + 1).drop_last() =~= all.take(i as int));
            }
            i = i + 1;
        }
        assert(all.take(n as int) =~= all);
        b
    }

    /// Adds the tokens that a minting function produced for each number of a
    /// range, in the range's order.
    pub fn mint_many_with(self, tokens: Vec<TokenEntry>) -> (r: NonFungibleResourceBuilder)
        ensures
            r@.token_symbol == self@.token_symbol,
            r@.metadata == self@.metadata,
            r@.tokens == insert_tokens(self@.tokens, tokens@),
    {
        self.with_non_fungibles(tokens)
    }

    /// The request that creates the resource with no initial tokens. A
    /// builder with tokens must use `build_bucket`.
    pub fn build(self) -> (r: CreateResourceArg)
        requires
            self@.tokens == Map::<NonFungibleIdView, (Seq<u8>, Seq<u8>)>::empty(),
        ensures
            r.resource_type == ResourceType::NonFungible,
            r.token_symbol@ == self@.token_symbol,
            r.metadata@ == self@.metadata,
            r.mint_arg is None,
    {
        CreateResourceArg {
            resource_type: ResourceType::NonFungible,
            token_symbol: self.token_symbol,
            metadata: self.metadata,
            mint_arg: None,
        }
    }

    /// The request that creates the resource and mints its tokens into a
    /// bucket.
    pub fn build_bucket(self) -> (r: CreateResourceArg)
        ensures
            r.resource_type == ResourceType::NonFungible,
            r.token_symbol@ == self@.token_symbol,
            r.metadata@ == self@.metadata,
            r.mint_arg matches Some(MintArg::NonFungible { tokens }) && insert_tokens(
                Map::empty(),
                tokens@,
            ) == self@.tokens,
    {
        CreateResourceArg {
            resource_type: ResourceType::NonFungible,
            token_symbol: self.token_symbol,
            metadata: self.metadata,
            mint_arg: Some(MintArg::NonFungible { tokens: self.tokens_ids }),
        }
    }

    /// Whether tokens are set to be minted.
    pub fn has_tokens(&self) -> (r: bool)
        ensures
            r <==> self@.tokens != Map::<NonFungibleIdView, (Seq<u8>, Seq<u8>)>::empty(),
    {
        proof {
            if self.tokens_ids@.len() > 0 {
                lemma_insert_tokens_nonempty(Map::empty(), self.tokens_ids@);
                assert(!Map::<NonFungibleIdView, (Seq<u8>, Seq<u8>)>::empty().dom().contains(
                    entry_key(self.tokens_ids@.last()),
                ));
            }
        }
        self.tokens_ids.len() > 0
    }
}

} // verus!
