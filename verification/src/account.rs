//! Ledger accounts: reading and setting the balance of a coin type.
use crate::snp::snp_blockchain::Account;
use crate::snp::snp_payments::Amount;
use vstd::prelude::*;

verus! {

/// The balance of `coin_type` in `balances`: the value of the first amount of
/// that coin type, or 0 when there is none.
pub open spec fn balance_in(balances: Seq<Amount>, coin_type: i32) -> u64
    decreases balances.len(),
{
    if balances.len() == 0 {
        0
    } else if balances[0].coin_type == coin_type {
        balances[0].value
    } else {
        balance_in(balances.drop_first(), coin_type)
    }
}

/// `balances` with the balance of `amount`'s coin type set to `amount`: the
/// first amount of that coin type is replaced, or `amount` is appended when
/// there is none.
pub open spec fn with_balance(balances: Seq<Amount>, amount: Amount) -> Seq<Amount>
    decreases balances.len(),
{
    if balances.len() == 0 {
        seq![amount]
    } else if balances[0].coin_type == amount.coin_type {
        balances.update(0, amount)
    } else {
        seq![balances[0]] + with_balance(balances.drop_first(), amount)
    }
}

/// Past a prefix without the coin type, the balance and the update are those
/// of the rest.
proof fn lemma_skip_other_coins(balances: Seq<Amount>, amount: Amount, i: int)
    requires
        0 <= i <= balances.len(),
        forall|j: int| 0 <= j < i ==> balances[j].coin_type != amount.coin_type,
    ensures
        balance_in(balances, amount.coin_type) == balance_in(
            balances.subrange(i, balances.len() as int),
            amount.coin_type,
        ),
        with_balance(balances, amount) == balances.subrange(0, i) + with_balance(
            balances.subrange(i, balances.len() as int),
            amount,
        ),
    decreases i,
{
    if i == 0 {
        assert(balances.subrange(0, balances.len() as int) =~= balances);
        assert(balances.subrange(0, 0) + with_balance(balances, amount) =~= with_balance(
            balances,
            amount,
        ));
    } else {
        let rest = balances.drop_first();
        lemma_skip_other_coins(rest, amount, i - 1);
        assert(rest.subrange(i - 1, rest.len() as int) =~= balances.subrange(
            i,
            balances.len() as int,
        ));
        assert(seq![balances[0]] + rest.subrange(0, i - 1) =~= balances.subrange(0, i));
        assert(seq![balances[0]] + (rest.subrange(0, i - 1) + with_balance(
            rest.subrange(i - 1, rest.len() as int),
            amount,
        )) =~= balances.subrange(0, i) + with_balance(
            balances.subrange(i, balances.len() as int),
            amount,
        ));
    }
}

/// Reading after setting: after the balance of a coin type is set, that coin
/// type's balance is the value set, and every other coin type's balance is
/// what it was.
pub proof fn lemma_balance_after_set(balances: Seq<Amount>, amount: Amount, coin_type: i32)
    ensures
        balance_in(with_balance(balances, amount), coin_type) == if coin_type == amount.coin_type {
            amount.value
        } else {
            balance_in(balances, coin_type)
        },
    decreases balances.len(),
{
    let after = with_balance(balances, amount);
    if balances.len() == 0 {
        assert(after.len() == 1 && after[0] == amount);
        assert(after.drop_first() =~= Seq::<Amount>::empty());
        assert(balance_in(after.drop_first(), coin_type) == 0);
    } else if balances[0].coin_type == amount.coin_type {
        assert(after.len() == balances.len() && after[0] == amount);
        assert(after.drop_first() =~= balances.drop_first());
        assert(balance_in(after.drop_first(), coin_type) == balance_in(balances.drop_first(), coin_type));
    } else {
        let rest = balances.drop_first();
        lemma_balance_after_set(rest, amount, coin_type);
        assert(after.len() > 0 && after[0] == balances[0]);
        assert(after.drop_first() =~= with_balance(rest, amount));
    }
}

/// Whether no two balances are of the same coin type.
pub open spec fn coin_types_distinct(balances: Seq<Amount>) -> bool {
    forall|i: int, j: int|
        0 <= i < j < balances.len() ==> #[trigger] balances[i].coin_type
            != #[trigger] balances[j].coin_type
}

/// The position of the first balance of `coin_type`, or the length of
/// `balances` when there is none.
pub open spec fn coin_index(balances: Seq<Amount>, coin_type: i32) -> int
    decreases balances.len(),
{
    if balances.len() == 0 {
        0
    } else if balances[0].coin_type == coin_type {
        0
    } else {
        1 + coin_index(balances.drop_first(), coin_type)
    }
}

/// Setting a balance replaces the first balance of its coin type, or appends
/// it when there is none.
proof fn lemma_with_balance_shape(balances: Seq<Amount>, amount: Amount)
    ensures
        0 <= coin_index(balances, amount.coin_type) <= balances.len(),
        forall|j: int|
            0 <= j < coin_index(balances, amount.coin_type) ==> #[trigger] balances[j].coin_type
                != amount.coin_type,
        coin_index(balances, amount.coin_type) < balances.len() ==> balances[coin_index(
            balances,
            amount.coin_type,
        )].coin_type == amount.coin_type,
        with_balance(balances, amount) == if coin_index(balances, amount.coin_type)
            == balances.len() {
            balances.push(amount)
        } else {
            balances.update(coin_index(balances, amount.coin_type), amount)
        },
    decreases balances.len(),
{
    if balances.len() > 0 && balances[0].coin_type != amount.coin_type {
        let rest = balances.drop_first();
        lemma_with_balance_shape(rest, amount);
        let k = coin_index(rest, amount.coin_type);
        assert forall|j: int| 0 <= j < k + 1 implies #[trigger] balances[j].coin_type
            != amount.coin_type by {
            if j > 0 {
                assert(balances[j] == rest[j - 1]);
            }
        }
        if k == rest.len() {
            assert(seq![balances[0]] + rest.push(amount) =~= balances.push(amount));
        } else {
            assert(seq![balances[0]] + rest.update(k, amount) =~= balances.update(k + 1, amount));
        }
    } else if balances.len() == 0 {
        assert(seq![amount] =~= balances.push(amount));
    }
}

/// Setting a balance keeps at most one balance per coin type: an account
/// whose balances are of distinct coin types still has them so after any
/// balance is set.
pub proof fn lemma_set_balance_keeps_coin_types_distinct(balances: Seq<Amount>, amount: Amount)
    requires
        coin_types_distinct(balances),
    ensures
        coin_types_distinct(with_balance(balances, amount)),
{
    lemma_with_balance_shape(balances, amount);
    let k = coin_index(balances, amount.coin_type);
    let after = with_balance(balances, amount);
    assert forall|i: int, j: int| 0 <= i < j < after.len() implies #[trigger] after[i].coin_type
        != #[trigger] after[j].coin_type by {
        if k == balances.len() {
            if j == balances.len() {
                assert(balances[i].coin_type != amount.coin_type);
            } else {
                assert(balances[i].coin_type != balances[j].coin_type);
            }
        } else if i == k {
            assert(balances[k].coin_type != balances[j].coin_type);
        } else if j == k {
            assert(balances[i].coin_type != balances[k].coin_type);
        } else {
            assert(balances[i].coin_type != balances[j].coin_type);
        }
    }
}

impl Account {
    /// The account's balance of `coin_type`, or 0 when it holds none.
    pub fn get_balance(&self, coin_type: i32) -> (r: u64)
        ensures
            r == balance_in(self.balances@, coin_type),
    {
        let ghost probe = Amount { value: 0, coin_type };
        let mut i: usize = 0;
        while i < self.balances.len()
            invariant
                0 <= i <= self.balances@.len(),
                probe.coin_type == coin_type,
                forall|j: int| 0 <= j < i ==> self.balances@[j].coin_type != coin_type,
            decreases self.balances@.len() - i,
        {
            if self.balances[i].coin_type == coin_type {
                proof {
                    lemma_skip_other_coins(self.balances@, probe, i as int);
                }
                return self.balances[i].value;
            }
            i = i + 1;
        }
        proof {
            lemma_skip_other_coins(self.balances@, probe, i as int);
        }
        0
    }

    /// Sets the account's balance of `amount`'s coin type to `amount`.
    pub fn set_balance(&mut self, amount: &Amount)
        ensures
            final(self).balances@ == with_balance(old(self).balances@, *amount),
            final(self).address == old(self).address,
            final(self).nonce == old(self).nonce,
    {
        let mut i: usize = 0;
        while i < self.balances.len()
            invariant
                0 <= i <= self.balances@.len(),
                self.balances@ == old(self).balances@,
                self.address == old(self).address,
                self.nonce == old(self).nonce,
                forall|j: int| 0 <= j < i ==> self.balances@[j].coin_type != amount.coin_type,
            decreases self.balances@.len() - i,
        {
            if self.balances[i].coin_type == amount.coin_type {
                proof {
                    lemma_skip_other_coins(self.balances@, *amount, i as int);
                }
                let ghost before = self.balances@;
                self.balances.set(i, *amount);
                assert(self.balances@ =~= before.subrange(0, i as int) + before.subrange(
                    i as int,
                    before.len() as int,
                ).update(0, *amount));
                return;
            }
            i = i + 1;
        }
        proof {
            lemma_skip_other_coins(self.balances@, *amount, i as int);
        }
        let ghost before = self.balances@;
        self.balances.push(*amount);
        assert(self.balances@ =~= before.subrange(0, i as int) + seq![*amount]);
    }
}

} // verus!
