//! The registry of token pairs.
//!
//! Each pair joins a base token, which accounts deposit, with a reserve token,
//! which they send back to withdraw. The registry holds every pair in both
//! directions and only ever changes the two directions together.

use vstd::prelude::*;
use crate::account_map::{AccountId, AccountMap};
use crate::error::LedgerError;

verus! {

/// One side's entry for a pair: the token on the other side and the rate at
/// which deposits of the pair's base token earn interest.
#[derive(Clone, Debug, PartialEq, Eq)]
pub struct TokenData {
    pub related_token_id: AccountId,
    pub reward_rate: u128,
}

/// A `TokenData` with its identifier as a sequence of characters.
pub struct TokenDataView {
    pub related_token_id: Seq<char>,
    pub reward_rate: u128,
}

impl View for TokenData {
    type V = TokenDataView;

    open spec fn view(&self) -> TokenDataView {
        TokenDataView { related_token_id: self.related_token_id@, reward_rate: self.reward_rate }
    }
}

impl TokenData {
    /// The entry that names `token_id` as the other side, at the rate `rate`.
    pub fn new(token_id: AccountId, rate: u128) -> (data: Self)
        ensures
            data.related_token_id == token_id,
            data.reward_rate == rate,
    {
        Self { related_token_id: token_id, reward_rate: rate }
    }
}

/// What an inbound transfer is taken for, by the token it arrived as.
#[derive(Clone, Copy, Debug, PartialEq, Eq, Structural)]
pub enum Route {
    /// The token is a registered base token: the transfer is a deposit.
    Deposit,
    /// The token is a registered reserve token: the transfer asks for a withdrawal.
    Withdraw,
    /// The token belongs to no pair: the transfer is refused.
    Rejected,
}

/// The registry as two maps: from each base token to its entry, and from each
/// reserve token to its entry.
pub struct RegistryView {
    pub token_info: Map<Seq<char>, TokenDataView>,
    pub reserve_token_info: Map<Seq<char>, TokenDataView>,
}

impl RegistryView {
    /// The registry without pairs.
    pub open spec fn empty() -> Self {
        RegistryView { token_info: Map::empty(), reserve_token_info: Map::empty() }
    }

    /// `token` is the base side of a pair.
    pub open spec fn is_base(self, token: Seq<char>) -> bool {
        self.token_info.contains_key(token)
    }

    /// `token` is the reserve side of a pair.
    pub open spec fn is_reserve(self, token: Seq<char>) -> bool {
        self.reserve_token_info.contains_key(token)
    }

    /// The route of a transfer that arrives as `token`.
    pub open spec fn classify(self, token: Seq<char>) -> Route {
        if self.is_base(token) {
            Route::Deposit
        } else if self.is_reserve(token) {
            Route::Withdraw
        } else {
            Route::Rejected
        }
    }

    /// The entry that the registry holds for `token`, looked for among the
    /// base tokens first.
    pub open spec fn entry_of(self, token: Seq<char>) -> Result<TokenDataView, LedgerError> {
        if self.is_base(token) {
            Ok(self.token_info[token])
        } else if self.is_reserve(token) {
            Ok(self.reserve_token_info[token])
        } else {
            Err(LedgerError::UnregisteredToken)
        }
    }

    /// The token on the other side of `token`'s pair.
    pub open spec fn paired_of(self, token: Seq<char>) -> Result<Seq<char>, LedgerError> {
        match self.entry_of(token) {
            Ok(entry) => Ok(entry.related_token_id),
            Err(e) => Err(e),
        }
    }

    /// The reward rate of `token`'s pair.
    pub open spec fn rate_of(self, token: Seq<char>) -> Result<u128, LedgerError> {
        match self.entry_of(token) {
            Ok(entry) => Ok(entry.reward_rate),
            Err(e) => Err(e),
        }
    }

    /// The two directions agree: every base token's entry names a reserve
    /// token whose entry names it back at the same rate, and the other way
    /// round; and no token is on both sides.
    pub open spec fn well_paired(self) -> bool {
        &&& forall|b: Seq<char>| #[trigger]
            self.token_info.contains_key(b) ==> {
                &&& !self.reserve_token_info.contains_key(b)
                &&& self.reserve_token_info.contains_key(self.token_info[b].related_token_id)
                &&& self.reserve_token_info[self.token_info[b].related_token_id]
                    == (TokenDataView { related_token_id: b, reward_rate: self.token_info[b].reward_rate })
            }
        &&& forall|r: Seq<char>| #[trigger]
            self.reserve_token_info.contains_key(r) ==> {
                &&& !self.token_info.contains_key(r)
                &&& self.token_info.contains_key(self.reserve_token_info[r].related_token_id)
                &&& self.token_info[self.reserve_token_info[r].related_token_id]
                    == (TokenDataView {
                    related_token_id: r,
                    reward_rate: self.reserve_token_info[r].reward_rate,
                })
            }
    }

    /// Neither token is known to the registry, and they differ.
    pub open spec fn is_fresh_pair(self, base: Seq<char>, reserve: Seq<char>) -> bool {
        &&& base != reserve
        &&& !self.is_base(base)
        &&& !self.is_reserve(base)
        &&& !self.is_base(reserve)
        &&& !self.is_reserve(reserve)
    }

    /// The pair stands in the registry already, at this rate.
    pub open spec fn holds_pair(self, base: Seq<char>, reserve: Seq<char>, rate: u128) -> bool {
        &&& self.is_base(base)
        &&& self.token_info[base] == (TokenDataView { related_token_id: reserve, reward_rate: rate })
        &&& self.is_reserve(reserve)
        &&& self.reserve_token_info[reserve] == (TokenDataView {
            related_token_id: base,
            reward_rate: rate,
        })
    }

    /// Registration of the pair is accepted: it is new, or it repeats a pair
    /// that is there.
    pub open spec fn accepts(self, base: Seq<char>, reserve: Seq<char>, rate: u128) -> bool {
        self.is_fresh_pair(base, reserve) || self.holds_pair(base, reserve, rate)
    }

    /// The registry with the pair entered in both directions.
    pub open spec fn register(self, base: Seq<char>, reserve: Seq<char>, rate: u128) -> Self {
        RegistryView {
            token_info: self.token_info.insert(
                base,
                TokenDataView { related_token_id: reserve, reward_rate: rate },
            ),
            reserve_token_info: self.reserve_token_info.insert(
                reserve,
                TokenDataView { related_token_id: base, reward_rate: rate },
            ),
        }
    }
}

/// Registering an accepted pair keeps the two directions in agreement, and
/// registering a pair that is there changes nothing.
pub proof fn lemma_register_keeps_pairing(
    registry: RegistryView,
    base: Seq<char>,
    reserve: Seq<char>,
    rate: u128,
)
    requires
        registry.well_paired(),
        registry.accepts(base, reserve, rate),
    ensures
        registry.register(base, reserve, rate).well_paired(),
        registry.register(base, reserve, rate).holds_pair(base, reserve, rate),
        registry.holds_pair(base, reserve, rate) ==> registry.register(base, reserve, rate)
            == registry,
{
    let after = registry.register(base, reserve, rate);
    if registry.holds_pair(base, reserve, rate) {
        assert(after.token_info =~= registry.token_info);
        assert(after.reserve_token_info =~= registry.reserve_token_info);
    } else {
        assert forall|b: Seq<char>| #[trigger] after.token_info.contains_key(b) implies {
            &&& !after.reserve_token_info.contains_key(b)
            &&& after.reserve_token_info.contains_key(after.token_info[b].related_token_id)
            &&& after.reserve_token_info[after.token_info[b].related_token_id] == (TokenDataView {
                related_token_id: b,
                reward_rate: after.token_info[b].reward_rate,
            })
        } by {
            if b != base {
                assert(registry.token_info.contains_key(b));
                assert(registry.reserve_token_info.contains_key(
                    registry.token_info[b].related_token_id,
                ));
            }
        }
        assert forall|r: Seq<char>| #[trigger] after.reserve_token_info.contains_key(r) implies {
            &&& !after.token_info.contains_key(r)
            &&& after.token_info.contains_key(after.reserve_token_info[r].related_token_id)
            &&& after.token_info[after.reserve_token_info[r].related_token_id] == (TokenDataView {
                related_token_id: r,
                reward_rate: after.reserve_token_info[r].reward_rate,
            })
        } by {
            if r != reserve {
                assert(registry.reserve_token_info.contains_key(r));
                assert(registry.token_info.contains_key(
                    registry.reserve_token_info[r].related_token_id,
                ));
            }
        }
    }
}

/// In a well-paired registry a withdrawal always resolves to a base token:
/// the token paired with a reserve token is a registered base token, routed
/// as a deposit, whose own pairing leads back and whose rate is the same.
pub proof fn lemma_reserve_resolves_to_base(registry: RegistryView, reserve: Seq<char>)
    requires
        registry.well_paired(),
        registry.classify(reserve) == Route::Withdraw,
    ensures
        registry.paired_of(reserve) is Ok,
        registry.classify(registry.paired_of(reserve)->Ok_0) == Route::Deposit,
        registry.paired_of(registry.paired_of(reserve)->Ok_0) == Ok::<Seq<char>, LedgerError>(
            reserve,
        ),
        registry.rate_of(registry.paired_of(reserve)->Ok_0) == registry.rate_of(reserve),
{
    assert(registry.reserve_token_info.contains_key(reserve));
}

/// The registry of token pairs.
pub struct TokenRegistry {
    token_info: AccountMap<TokenData>,
    reserve_token_info: AccountMap<TokenData>,
}

impl View for TokenRegistry {
    type V = RegistryView;

    closed spec fn view(&self) -> RegistryView {
        RegistryView {
            token_info: self.token_info@.map_values(|data: TokenData| data@),
            reserve_token_info: self.reserve_token_info@.map_values(|data: TokenData| data@),
        }
    }
}

impl TokenRegistry {
    #[verifier::type_invariant]
    spec fn paired(self) -> bool {
        self@.well_paired()
    }

    /// A registry without pairs.
    pub fn new() -> (registry: Self)
        ensures
            registry@ == RegistryView::empty(),
            registry@.well_paired(),
    {
        let token_info: AccountMap<TokenData> = AccountMap::new();
        let reserve_token_info: AccountMap<TokenData> = AccountMap::new();
        assert(token_info@.map_values(|data: TokenData| data@) =~= Map::empty());
        assert(reserve_token_info@.map_values(|data: TokenData| data@) =~= Map::empty());
        TokenRegistry { token_info, reserve_token_info }
    }

    /// Enters the pair of `base_token` and `reserve_token` in both directions.
    ///
    /// A pair of two distinct tokens that the registry does not know is
    /// entered. A pair that stands there already at this rate is accepted and
    /// changes nothing. Anything else is refused and changes nothing.
    pub fn register_pair(
        &mut self,
        base_token: AccountId,
        reserve_token: AccountId,
        reward_rate: u128,
    ) -> (accepted: bool)
        ensures
            accepted == old(self)@.accepts(base_token@, reserve_token@, reward_rate),
            accepted ==> final(self)@ == old(self)@.register(
                base_token@,
                reserve_token@,
                reward_rate,
            ),
            !accepted ==> *final(self) == *old(self),
            final(self)@.well_paired(),
    {
        proof {
            use_type_invariant(&*self);
            if self@.accepts(base_token@, reserve_token@, reward_rate) {
                lemma_register_keeps_pairing(self@, base_token@, reserve_token@, reward_rate);
            }
        }
        let base_known = self.token_info.contains_key(&base_token)
            || self.reserve_token_info.contains_key(&base_token);
        let reserve_known = self.token_info.contains_key(&reserve_token)
            || self.reserve_token_info.contains_key(&reserve_token);
        if !base_known && !reserve_known {
            if base_token == reserve_token {
                return false;
            }
            let mut taken = TokenRegistry::new();
            std::mem::swap(self, &mut taken);
            let TokenRegistry { mut token_info, mut reserve_token_info } = taken;
            let ghost before_bases = token_info@;
            let ghost before_reserves = reserve_token_info@;
            let forward = TokenData::new(reserve_token.clone(), reward_rate);
            let backward = TokenData::new(base_token.clone(), reward_rate);
            token_info.insert(base_token, forward);
            reserve_token_info.insert(reserve_token, backward);
            assert(token_info@.map_values(|data: TokenData| data@) =~= before_bases.map_values(
                |data: TokenData| data@,
            ).insert(base_token@, forward@));
            assert(reserve_token_info@.map_values(|data: TokenData| data@)
                =~= before_reserves.map_values(|data: TokenData| data@).insert(
                reserve_token@,
                backward@,
            ));
            *self = TokenRegistry { token_info, reserve_token_info };
            true
        } else {
            let forward_held = match self.token_info.get(&base_token) {
                Some(data) => data.related_token_id == reserve_token && data.reward_rate
                    == reward_rate,
                None => false,
            };
            let backward_held = match self.reserve_token_info.get(&reserve_token) {
                Some(data) => data.related_token_id == base_token && data.reward_rate == reward_rate,
                None => false,
            };
            forward_held && backward_held
        }
    }

    /// Whether `token` is the base side of a pair.
    pub fn is_base(&self, token: &AccountId) -> (known: bool)
        ensures
            known == self@.is_base(token@),
            self@.well_paired(),
    {
        proof {
            use_type_invariant(self);
        }
        self.token_info.contains_key(token)
    }

    /// Whether `token` is the reserve side of a pair.
    pub fn is_reserve(&self, token: &AccountId) -> (known: bool)
        ensures
            known == self@.is_reserve(token@),
            self@.well_paired(),
    {
        proof {
            use_type_invariant(self);
        }
        self.reserve_token_info.contains_key(token)
    }

    /// The route of a transfer that arrives as `token`.
    pub fn classify(&self, token: &AccountId) -> (route: Route)
        ensures
            route == self@.classify(token@),
            self@.well_paired(),
    {
        proof {
            use_type_invariant(self);
        }
        if self.token_info.contains_key(token) {
            Route::Deposit
        } else if self.reserve_token_info.contains_key(token) {
            Route::Withdraw
        } else {
            Route::Rejected
        }
    }

    /// The entry for `token` as a base token.
    pub fn base_entry(&self, token: &AccountId) -> (entry: Option<&TokenData>)
        ensures
            entry is Some == self@.is_base(token@),
            entry matches Some(data) ==> data@ == self@.token_info[token@],
            self@.well_paired(),
    {
        proof {
            use_type_invariant(self);
        }
        self.token_info.get(token)
    }

    /// The entry for `token` as a reserve token.
    pub fn reserve_entry(&self, token: &AccountId) -> (entry: Option<&TokenData>)
        ensures
            entry is Some == self@.is_reserve(token@),
            entry matches Some(data) ==> data@ == self@.reserve_token_info[token@],
            self@.well_paired(),
    {
        proof {
            use_type_invariant(self);
        }
        self.reserve_token_info.get(token)
    }

    /// The token on the other side of `token`'s pair.
    pub fn paired_of(&self, token: &AccountId) -> (paired: Result<AccountId, LedgerError>)
        ensures
            match paired {
                Ok(other) => self@.paired_of(token@) == Ok::<Seq<char>, LedgerError>(other@),
                Err(e) => self@.paired_of(token@) == Err::<Seq<char>, LedgerError>(e),
            },
            self@.well_paired(),
    {
        proof {
            use_type_invariant(self);
        }
        match self.token_info.get(token) {
            Some(data) => Ok(data.related_token_id.clone()),
            None => match self.reserve_token_info.get(token) {
                Some(data) => Ok(data.related_token_id.clone()),
                None => Err(LedgerError::UnregisteredToken),
            },
        }
    }

    /// The reward rate of `token`'s pair.
    pub fn rate_of(&self, token: &AccountId) -> (rate: Result<u128, LedgerError>)
        ensures
            rate == self@.rate_of(token@),
            self@.well_paired(),
    {
        proof {
            use_type_invariant(self);
        }
        match self.token_info.get(token) {
            Some(data) => Ok(data.reward_rate),
            None => match self.reserve_token_info.get(token) {
                Some(data) => Ok(data.reward_rate),
                None => Err(LedgerError::UnregisteredToken),
            },
        }
    }
}

} // verus!
