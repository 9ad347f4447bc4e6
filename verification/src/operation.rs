//! The whitelist of the program: who may fund rewards, and which token mints
//! may be handed out as rewards. Each list is a fixed array of keys in which
//! the zero key marks an empty slot; slots are filled and emptied in place.

use vstd::prelude::*;
use crate::error::ErrorCode;
use crate::pubkey::{zero_key, Pubkey};

verus! {

/// Number of slots for operation owners.
pub const OPERATION_SIZE_USIZE: usize = 10;

/// Number of slots for whitelisted mints.
pub const WHITE_MINT_SIZE_USIZE: usize = 100;

/// The whitelist.
#[derive(Clone, Copy, Debug, PartialEq, Eq)]
pub struct OperationState {
    /// Bump of the record's derived address.
    pub bump: u8,
    /// Who may fund rewards.
    pub operation_owners: [Pubkey; 10],
    /// Which mints may be handed out as rewards.
    pub whitelist_mints: [Pubkey; 100],
}

/// Whether slot `i` is empty.
pub open spec fn slot_empty(slots: Seq<Pubkey>, i: int) -> bool {
    slots[i]@ == zero_key()
}

/// Whether `i` is the first empty slot.
pub open spec fn is_first_empty(slots: Seq<Pubkey>, i: int) -> bool {
    &&& 0 <= i < slots.len()
    &&& slot_empty(slots, i)
    &&& forall|j: int| 0 <= j < i ==> !slot_empty(slots, j)
}

/// Whether any slot is empty.
pub open spec fn has_empty(slots: Seq<Pubkey>) -> bool {
    exists|i: int| 0 <= i < slots.len() && slot_empty(slots, i)
}

/// Whether some slot holds `key`.
pub open spec fn holds_key(slots: Seq<Pubkey>, key: Seq<u8>) -> bool {
    exists|i: int| 0 <= i < slots.len() && (#[trigger] slots[i])@ == key
}

/// Whether `key` is an entry of the list: it is not the empty marker, and
/// some slot holds it.
pub open spec fn listed(slots: Seq<Pubkey>, key: Seq<u8>) -> bool {
    key != zero_key() && holds_key(slots, key)
}

/// The list with `key` in its first empty slot, or `WhitelistFull` where no
/// slot is empty.
pub open spec fn spec_add_key(slots: Seq<Pubkey>, key: Pubkey) -> Result<Seq<Pubkey>, ErrorCode> {
    if has_empty(slots) {
        Ok(slots.update(choose|i: int| is_first_empty(slots, i), key))
    } else {
        Err(ErrorCode::WhitelistFull)
    }
}

/// The list with every slot that holds `key` emptied.
pub open spec fn spec_remove_key(slots: Seq<Pubkey>, key: Pubkey) -> Seq<Pubkey> {
    Seq::new(
        slots.len(),
        |i: int|
            if slots[i]@ == key@ {
                Pubkey::spec_zero()
            } else {
                slots[i]
            },
    )
}

/// The list after adding `keys` one by one, or the first refusal.
pub open spec fn spec_add_keys(slots: Seq<Pubkey>, keys: Seq<Pubkey>) -> Result<
    Seq<Pubkey>,
    ErrorCode,
>
    decreases keys.len(),
{
    if keys.len() == 0 {
        Ok(slots)
    } else {
        match spec_add_key(slots, keys[0]) {
            Err(e) => Err(e),
            Ok(next) => spec_add_keys(next, keys.drop_first()),
        }
    }
}

/// The list after removing `keys` one by one.
pub open spec fn spec_remove_keys(slots: Seq<Pubkey>, keys: Seq<Pubkey>) -> Seq<Pubkey>
    decreases keys.len(),
{
    if keys.len() == 0 {
        slots
    } else {
        spec_remove_keys(spec_remove_key(slots, keys[0]), keys.drop_first())
    }
}

/// A list has at most one first empty slot, and has one as soon as any slot
/// is empty.
pub proof fn lemma_first_empty(slots: Seq<Pubkey>)
    ensures
        forall|i: int, j: int| is_first_empty(slots, i) && is_first_empty(slots, j) ==> i == j,
        has_empty(slots) ==> is_first_empty(slots, choose|i: int| is_first_empty(slots, i)),
{
    if has_empty(slots) {
        let w = choose|i: int| 0 <= i < slots.len() && slot_empty(slots, i);
        lemma_first_empty_below(slots, w + 1);
    }
}

proof fn lemma_first_empty_below(slots: Seq<Pubkey>, n: int)
    requires
        0 <= n <= slots.len(),
        exists|i: int| 0 <= i < n && slot_empty(slots, i),
    ensures
        exists|i: int| is_first_empty(slots, i),
    decreases n,
{
    if exists|i: int| 0 <= i < n - 1 && slot_empty(slots, i) {
        lemma_first_empty_below(slots, n - 1);
    } else {
        assert(is_first_empty(slots, n - 1));
    }
}

/// The first empty slot of `slots`, if there is one.
fn find_first_empty<const N: usize>(slots: &[Pubkey; N]) -> (res: Option<usize>)
    ensures
        match res {
            Some(i) => is_first_empty(slots@, i as int),
            None => !has_empty(slots@),
        },
{
    let mut i: usize = 0;
    while i < N
        invariant
            i <= N,
            slots@.len() == N,
            forall|j: int| 0 <= j < i ==> !slot_empty(slots@, j),
        decreases N - i,
    {
        if slots[i].is_zero() {
            return Some(i);
        }
        i += 1;
    }
    None
}

/// Whether some slot of `slots` holds `key`.
fn contains_key<const N: usize>(slots: &[Pubkey; N], key: &Pubkey) -> (r: bool)
    ensures
        r == holds_key(slots@, key@),
{
    let mut i: usize = 0;
    while i < N
        invariant
            i <= N,
            slots@.len() == N,
            forall|j: int| 0 <= j < i ==> slots@[j]@ != key@,
        decreases N - i,
    {
        if slots[i] == *key {
            return true;
        }
        i += 1;
    }
    false
}

/// Puts `key` into the first empty slot of `slots`.
fn add_key<const N: usize>(slots: &mut [Pubkey; N], key: Pubkey) -> (res: Result<(), ErrorCode>)
    ensures
        match spec_add_key(old(slots)@, key) {
            Ok(next) => res is Ok && final(slots)@ == next,
            Err(e) => res == Err::<(), ErrorCode>(e) && *final(slots) == *old(slots),
        },
{
    proof {
        lemma_first_empty(slots@);
    }
    match find_first_empty(slots) {
        Some(i) => {
            slots[i] = key;
            Ok(())
        },
        None => Err(ErrorCode::WhitelistFull),
    }
}

/// Empties every slot of `slots` that holds `key`.
fn remove_key<const N: usize>(slots: &mut [Pubkey; N], key: &Pubkey)
    ensures
        final(slots)@ == spec_remove_key(old(slots)@, *key),
{
    let empty = Pubkey::default();
    let mut i: usize = 0;
    while i < N
        invariant
            i <= N,
            slots@.len() == N,
            empty == Pubkey::spec_zero(),
            forall|j: int|
                0 <= j < i ==> slots@[j] == if old(slots)@[j]@ == key@ {
                    empty
                } else {
                    old(slots)@[j]
                },
            forall|j: int| i <= j < N ==> slots@[j] == old(slots)@[j],
        decreases N - i,
    {
        if slots[i] == *key {
            slots[i] = empty;
        }
        i += 1;
    }
}

/// Puts `keys` into `slots` one by one; where one of them finds no empty
/// slot, none is put in.
fn add_keys<const N: usize>(slots: &mut [Pubkey; N], keys: &Vec<Pubkey>) -> (res: Result<
    (),
    ErrorCode,
>)
    ensures
        match spec_add_keys(old(slots)@, keys@) {
            Ok(next) => res is Ok && final(slots)@ == next,
            Err(e) => res == Err::<(), ErrorCode>(e) && *final(slots) == *old(slots),
        },
{
    let mut next = *slots;
    let mut i: usize = 0;
    assert(keys@.subrange(0, keys@.len() as int) =~= keys@);
    while i < keys.len()
        invariant
            i <= keys.len(),
            spec_add_keys(old(slots)@, keys@) == spec_add_keys(
                next@,
                keys@.subrange(i as int, keys@.len() as int),
            ),
            *slots == *old(slots),
        decreases keys.len() - i,
    {
        let ghost rest = keys@.subrange(i as int, keys@.len() as int);
        assert(rest.drop_first() =~= keys@.subrange(i + 1, keys@.len() as int));
        match add_key(&mut next, keys[i]) {
            Ok(()) => {},
            Err(e) => {
                return Err(e);
            },
        }
        i += 1;
    }
    *slots = next;
    Ok(())
}

/// Empties every slot of `slots` that holds one of `keys`.
fn remove_keys<const N: usize>(slots: &mut [Pubkey; N], keys: &Vec<Pubkey>)
    ensures
        final(slots)@ == spec_remove_keys(old(slots)@, keys@),
{
    let mut i: usize = 0;
    assert(keys@.subrange(0, keys@.len() as int) =~= keys@);
    while i < keys.len()
        invariant
            i <= keys.len(),
            spec_remove_keys(old(slots)@, keys@) == spec_remove_keys(
                slots@,
                keys@.subrange(i as int, keys@.len() as int),
            ),
        decreases keys.len() - i,
    {
        let ghost rest = keys@.subrange(i as int, keys@.len() as int);
        assert(rest.drop_first() =~= keys@.subrange(i + 1, keys@.len() as int));
        remove_key(slots, &keys[i]);
        i += 1;
    }
}

impl OperationState {
    /// Number of bytes a stored whitelist takes, its 8-byte record header
    /// included.
    pub const LEN: usize = 8 + 1 + 32 * OPERATION_SIZE_USIZE + 32 * WHITE_MINT_SIZE_USIZE;

    /// Whether `key` may fund rewards.
    pub open spec fn authorizes(&self, key: Seq<u8>) -> bool {
        listed(self.operation_owners@, key)
    }

    /// Whether `key` may be handed out as a reward.
    pub open spec fn permits_mint(&self, key: Seq<u8>) -> bool {
        listed(self.whitelist_mints@, key)
    }

    /// The whitelist with both lists empty.
    pub open spec fn spec_new(bump: u8) -> OperationState {
        OperationState {
            bump,
            operation_owners: vstd::array::spec_array_fill_for_copy_type::<Pubkey, 10>(
                Pubkey::spec_zero(),
            ),
            whitelist_mints: vstd::array::spec_array_fill_for_copy_type::<Pubkey, 100>(
                Pubkey::spec_zero(),
            ),
        }
    }

    /// A whitelist with both lists empty.
    pub fn new(bump: u8) -> (s: OperationState)
        ensures
            s == OperationState::spec_new(bump),
            forall|key: Seq<u8>| !s.authorizes(key) && !s.permits_mint(key),
    {
        let s = OperationState {
            bump,
            operation_owners: [Pubkey::default();10],
            whitelist_mints: [Pubkey::default();100],
        };
        proof {
            crate::pubkey::lemma_key_by_view(Pubkey::spec_zero(), Pubkey::spec_zero());
        }
        s
    }

    /// Whether `key` may fund rewards: it is not the zero key, and a slot of
    /// the owners' list holds it.
    pub fn is_authorized_funder(&self, key: &Pubkey) -> (r: bool)
        ensures
            r == self.authorizes(key@),
    {
        !key.is_zero() && contains_key(&self.operation_owners, key)
    }

    /// Whether `key` may be handed out as a reward: it is not the zero key,
    /// and a slot of the mints' list holds it.
    pub fn is_whitelisted_mint(&self, key: &Pubkey) -> (r: bool)
        ensures
            r == self.permits_mint(key@),
    {
        !key.is_zero() && contains_key(&self.whitelist_mints, key)
    }

    /// Puts `key` into the first empty slot of the owners' list. Refused with
    /// `WhitelistFull`, and nothing changed, exactly where no slot is empty.
    pub fn add_owner(&mut self, key: Pubkey) -> (res: Result<(), ErrorCode>)
        ensures
            match spec_add_key(old(self).operation_owners@, key) {
                Ok(next) => res is Ok && final(self).operation_owners@ == next,
                Err(e) => res == Err::<(), ErrorCode>(e) && *final(self) == *old(self),
            },
            final(self).bump == old(self).bump,
            final(self).whitelist_mints == old(self).whitelist_mints,
    {
        add_key(&mut self.operation_owners, key)
    }

    /// Empties every slot of the owners' list that holds `key`.
    pub fn remove_owner(&mut self, key: &Pubkey)
        ensures
            final(self).operation_owners@ == spec_remove_key(old(self).operation_owners@, *key),
            final(self).bump == old(self).bump,
            final(self).whitelist_mints == old(self).whitelist_mints,
    {
        remove_key(&mut self.operation_owners, key)
    }

    /// Puts `key` into the first empty slot of the mints' list. Refused with
    /// `WhitelistFull`, and nothing changed, exactly where no slot is empty.
    pub fn add_mint(&mut self, key: Pubkey) -> (res: Result<(), ErrorCode>)
        ensures
            match spec_add_key(old(self).whitelist_mints@, key) {
                Ok(next) => res is Ok && final(self).whitelist_mints@ == next,
                Err(e) => res == Err::<(), ErrorCode>(e) && *final(self) == *old(self),
            },
            final(self).bump == old(self).bump,
            final(self).operation_owners == old(self).operation_owners,
    {
        add_key(&mut self.whitelist_mints, key)
    }

    /// Empties every slot of the mints' list that holds `key`.
    pub fn remove_mint(&mut self, key: &Pubkey)
        ensures
            final(self).whitelist_mints@ == spec_remove_key(old(self).whitelist_mints@, *key),
            final(self).bump == old(self).bump,
            final(self).operation_owners == old(self).operation_owners,
    {
        remove_key(&mut self.whitelist_mints, key)
    }

    /// Adds `keys` to the owners' list one by one; where one of them finds no
    /// empty slot, the list stays as it was.
    pub fn add_owners(&mut self, keys: &Vec<Pubkey>) -> (res: Result<(), ErrorCode>)
        ensures
            match spec_add_keys(old(self).operation_owners@, keys@) {
                Ok(next) => res is Ok && final(self).operation_owners@ == next,
                Err(e) => res == Err::<(), ErrorCode>(e) && *final(self) == *old(self),
            },
            final(self).bump == old(self).bump,
            final(self).whitelist_mints == old(self).whitelist_mints,
    {
        add_keys(&mut self.operation_owners, keys)
    }

    /// Removes each of `keys` from the owners' list.
    pub fn remove_owners(&mut self, keys: &Vec<Pubkey>)
        ensures
            final(self).operation_owners@ == spec_remove_keys(old(self).operation_owners@, keys@),
            final(self).bump == old(self).bump,
            final(self).whitelist_mints == old(self).whitelist_mints,
    {
        remove_keys(&mut self.operation_owners, keys)
    }

    /// Adds `keys` to the mints' list one by one; where one of them finds no
    /// empty slot, the list stays as it was.
    pub fn add_mints(&mut self, keys: &Vec<Pubkey>) -> (res: Result<(), ErrorCode>)
        ensures
            match spec_add_keys(old(self).whitelist_mints@, keys@) {
                Ok(next) => res is Ok && final(self).whitelist_mints@ == next,
                Err(e) => res == Err::<(), ErrorCode>(e) && *final(self) == *old(self),
            },
            final(self).bump == old(self).bump,
            final(self).operation_owners == old(self).operation_owners,
    {
        add_keys(&mut self.whitelist_mints, keys)
    }

    /// Removes each of `keys` from the mints' list.
    pub fn remove_mints(&mut self, keys: &Vec<Pubkey>)
        ensures
            final(self).whitelist_mints@ == spec_remove_keys(old(self).whitelist_mints@, keys@),
            final(self).bump == old(self).bump,
            final(self).operation_owners == old(self).operation_owners,
    {
        remove_keys(&mut self.whitelist_mints, keys)
    }
}

/// Adding a key lists it and unlists nothing: afterwards the list holds the
/// key, and every key that was listed still is. A key other than the one
/// added is listed afterwards only if it was before.
pub proof fn lemma_add_lists_key(slots: Seq<Pubkey>, key: Pubkey, other: Seq<u8>)
    requires
        spec_add_key(slots, key) is Ok,
    ensures
        holds_key(spec_add_key(slots, key)->Ok_0, key@),
        listed(slots, other) ==> listed(spec_add_key(slots, key)->Ok_0, other),
        other != key@ && listed(spec_add_key(slots, key)->Ok_0, other) ==> listed(slots, other),
        spec_add_key(slots, key)->Ok_0.len() == slots.len(),
{
    lemma_first_empty(slots);
    let at = choose|i: int| is_first_empty(slots, i);
    let next = spec_add_key(slots, key)->Ok_0;
    assert(next[at] == key);
    if listed(slots, other) {
        let w = choose|i: int| 0 <= i < slots.len() && (#[trigger] slots[i])@ == other;
        assert(next[w]@ == other);
    }
    if other != key@ && listed(next, other) {
        let w = choose|i: int| 0 <= i < next.len() && (#[trigger] next[i])@ == other;
        assert(slots[w]@ == other);
    }
}

/// Removing a key unlists it and nothing else.
pub proof fn lemma_remove_unlists_key(slots: Seq<Pubkey>, key: Pubkey, other: Seq<u8>)
    ensures
        !listed(spec_remove_key(slots, key), key@),
        other != key@ ==> (listed(spec_remove_key(slots, key), other) <==> listed(slots, other)),
        spec_remove_key(slots, key).len() == slots.len(),
{
    crate::pubkey::lemma_key_by_view(key, key);
    let next = spec_remove_key(slots, key);
    if key@ != zero_key() {
        assert forall|i: int| 0 <= i < next.len() implies (#[trigger] next[i])@ != key@ by {}
    }
    if other != key@ {
        if listed(next, other) {
            let w = choose|i: int| 0 <= i < next.len() && (#[trigger] next[i])@ == other;
            assert(slots[w]@ == other);
        }
        if listed(slots, other) {
            let w = choose|i: int| 0 <= i < slots.len() && (#[trigger] slots[i])@ == other;
            assert(next[w]@ == other);
        }
    }
}

} // verus!
