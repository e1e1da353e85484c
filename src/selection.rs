//! Input selection and assembly of the unsigned transaction.

use vstd::prelude::*;
use crate::error::WalletError;
use crate::transaction::{
    copy_bytes, Address, Transaction, TransactionView, TxIn, TxInView, TxOut, TxOutView, Utxo,
    SEQUENCE_FINAL, TX_VERSION,
};

verus! {

/// Change below this value is not paid out but left to the fee.
pub const DUST_THRESHOLD: u64 = 1_000;

/// Value of the `k` most recently listed outputs (the last `k` of the list).
pub open spec fn newest_sum(utxos: Seq<Utxo>, k: nat) -> int
    decreases k,
{
    if k == 0 || k > utxos.len() {
        0
    } else {
        newest_sum(utxos, (k - 1) as nat) + utxos[utxos.len() - k].value
    }
}

/// Value of all the outputs.
pub open spec fn total_value(utxos: Seq<Utxo>) -> int {
    newest_sum(utxos, utxos.len())
}

/// How many outputs the selection takes, counting from the end of the list:
/// it takes one more until their value reaches `required`, or the list ends.
pub open spec fn selection_count(utxos: Seq<Utxo>, required: int, k: nat) -> nat
    decreases utxos.len() - k,
{
    if k >= utxos.len() {
        utxos.len()
    } else if newest_sum(utxos, k + 1) >= required {
        k + 1
    } else {
        selection_count(utxos, required, k + 1)
    }
}

/// The outputs chosen to cover `required`: the newest first.
pub open spec fn selected(utxos: Seq<Utxo>, required: int) -> Seq<Utxo> {
    Seq::new(
        selection_count(utxos, required, 0),
        |j: int| utxos[utxos.len() - 1 - j],
    )
}

pub open spec fn spend_input(u: Utxo) -> TxInView {
    TxInView {
        prev_txid: u.outpoint.txid@,
        prev_vout: u.outpoint.vout,
        script_sig: Seq::empty(),
        sequence: SEQUENCE_FINAL,
    }
}

/// What is left of the selected value once the amount and the fee are paid.
pub open spec fn change_value(utxos: Seq<Utxo>, amount: u64, fee: u64) -> int {
    let required = amount + fee;
    newest_sum(utxos, selection_count(utxos, required, 0)) - required
}

pub open spec fn assembled_outputs(
    utxos: Seq<Utxo>,
    own: Seq<u8>,
    dst: Seq<u8>,
    amount: u64,
    fee: u64,
) -> Seq<TxOutView> {
    let change = change_value(utxos, amount, fee);
    let pay = seq![TxOutView { value: amount, script_pubkey: dst }];
    if change >= DUST_THRESHOLD {
        pay.push(TxOutView { value: change as u64, script_pubkey: own })
    } else {
        pay
    }
}

/// The unsigned transaction paying `amount` to `dst` with fee `fee`, and the
/// outputs it spends; or the shortfall.
pub open spec fn assembled(
    utxos: Seq<Utxo>,
    own: Seq<u8>,
    dst: Seq<u8>,
    amount: u64,
    fee: u64,
) -> Result<(TransactionView, Seq<TxOutView>), WalletError> {
    let required = amount + fee;
    if total_value(utxos) < required {
        Err(
            WalletError::InsufficientFunds {
                available: total_value(utxos) as u128,
                required: required as u128,
            },
        )
    } else {
        let sel = selected(utxos, required);
        Ok(
            (
                TransactionView {
                    version: TX_VERSION,
                    lock_time: 0,
                    input: sel.map_values(|u: Utxo| spend_input(u)),
                    output: assembled_outputs(utxos, own, dst, amount, fee),
                },
                sel.map_values(|u: Utxo| TxOutView { value: u.value, script_pubkey: own }),
            ),
        )
    }
}

pub proof fn lemma_newest_sum_bounds(utxos: Seq<Utxo>, k: nat)
    requires
        k <= utxos.len(),
    ensures
        0 <= newest_sum(utxos, k) <= k * 0xffff_ffff_ffff_ffff,
    decreases k,
{
    if k > 0 {
        lemma_newest_sum_bounds(utxos, (k - 1) as nat);
    }
}

pub proof fn lemma_newest_sum_monotone(utxos: Seq<Utxo>, j: nat, k: nat)
    requires
        j <= k <= utxos.len(),
    ensures
        newest_sum(utxos, j) <= newest_sum(utxos, k),
    decreases k - j,
{
    if j < k {
        lemma_newest_sum_monotone(utxos, j, (k - 1) as nat);
    }
}

/// Once every sum before `k` falls short, the count found from `k` is the count.
proof fn lemma_selection_count_bounds(utxos: Seq<Utxo>, required: int, k: nat)
    requires
        k <= utxos.len(),
    ensures
        k <= selection_count(utxos, required, k) <= utxos.len(),
        selection_count(utxos, required, k) < utxos.len() ==> newest_sum(
            utxos,
            selection_count(utxos, required, k),
        ) >= required,
        k < utxos.len() ==> selection_count(utxos, required, k) >= k + 1,
        forall|j: nat|
            k < j < selection_count(utxos, required, k) ==> newest_sum(utxos, j) < required,
    decreases utxos.len() - k,
{
    if k < utxos.len() && newest_sum(utxos, k + 1) < required {
        lemma_selection_count_bounds(utxos, required, k + 1);
    }
}

/// Picks outputs from the end of the list (the newest first) until their value
/// covers `amount + fee`.
pub fn select_utxos(utxos: &Vec<Utxo>, amount: u64, fee: u64) -> (r: Result<Vec<Utxo>, WalletError>)
    requires
        amount > 0,
    ensures
        match r {
            Ok(sel) => {
                &&& total_value(utxos@) >= amount + fee
                &&& sel@ == selected(utxos@, amount + fee)
                &&& 1 <= sel.len() <= utxos.len()
                &&& newest_sum(utxos@, sel.len() as nat) >= amount + fee
                &&& newest_sum(utxos@, (sel.len() - 1) as nat) < amount + fee
            },
            Err(e) => {
                &&& total_value(utxos@) < amount + fee
                &&& e == WalletError::InsufficientFunds {
                    available: total_value(utxos@) as u128,
                    required: (amount + fee) as u128,
                }
            },
        },
{
    let required: u128 = amount as u128 + fee as u128;
    let ghost req = required as int;
    let ghost u = utxos@;
    let n = utxos.len();
    let mut sel: Vec<Utxo> = Vec::new();
    let mut total: u128 = 0;
    let mut i: usize = 0;
    proof {
        assert(n * 0xffff_ffff_ffff_ffffnat <= 0xffff_ffff_ffff_ffff * 0xffff_ffff_ffff_ffffnat)
            by (nonlinear_arith)
            requires
                n <= 0xffff_ffff_ffff_ffffnat,
        ;
    }
    while i < n
        invariant_except_break
            forall|j: nat| j <= i ==> newest_sum(u, j) < req,
        invariant
            n == utxos.len(),
            n * 0xffff_ffff_ffff_ffffnat <= 0xffff_ffff_ffff_ffff * 0xffff_ffff_ffff_ffffnat,
            i <= n,
            required == req,
            req == amount + fee,
            req >= 1,
            total == newest_sum(u, i as nat),
            sel.len() == i,
            forall|j: int| 0 <= j < i ==> sel@[j] == u[n - 1 - j],
            u == utxos@,
        ensures
            i <= n,
            total == newest_sum(u, i as nat),
            sel.len() == i,
            forall|j: int| 0 <= j < i ==> sel@[j] == u[n - 1 - j],
            total >= req ==> i >= 1 && newest_sum(u, (i - 1) as nat) < req,
            total < req ==> i == n,
        decreases n - i,
    {
        proof {
            lemma_newest_sum_bounds(u, (i + 1) as nat);
        }
        let v = utxos[n - 1 - i];
        total = total + v.value as u128;
        sel.push(v);
        i = i + 1;
        if total >= required {
            break;
        }
    }
    proof {
        lemma_selection_count_bounds(u, req, 0);
        lemma_newest_sum_monotone(u, i as nat, n as nat);
    }
    if total < required {
        proof {
            assert(i == n);
        }
        return Err(WalletError::InsufficientFunds { available: total, required });
    }
    proof {
        let c = selection_count(u, req, 0);
        if c < i {
            lemma_newest_sum_monotone(u, c, (i - 1) as nat);
        }
        if c > i {
            assert(newest_sum(u, i as nat) < req);
        }
        assert(c == i);
        assert(sel@ =~= selected(u, req));
    }
    Ok(sel)
}

} // verus!

verus! {

/// Builds the unsigned transaction paying `amount` to the destination with
/// fee `fee`, and the outputs it spends (one per input, locked by the source
/// script). Change of at least the dust threshold goes back to the source;
/// smaller change is left to the fee.
pub fn build_transaction_with_fee(
    own_utxos: &Vec<Utxo>,
    own_address: &Address,
    dst_address: &Address,
    amount: u64,
    fee: u64,
) -> (r: Result<(Transaction, Vec<TxOut>), WalletError>)
    requires
        amount > 0,
    ensures
        match r {
            Ok((tx, prevouts)) => assembled(
                own_utxos@,
                own_address.script_pubkey@,
                dst_address.script_pubkey@,
                amount,
                fee,
            ) == Ok::<(TransactionView, Seq<TxOutView>), WalletError>(
                (tx@, prevouts@.map_values(|o: TxOut| o@)),
            ),
            Err(e) => assembled(
                own_utxos@,
                own_address.script_pubkey@,
                dst_address.script_pubkey@,
                amount,
                fee,
            ) == Err::<(TransactionView, Seq<TxOutView>), WalletError>(e),
        },
{
    let ghost u = own_utxos@;
    let ghost own = own_address.script_pubkey@;
    let ghost dst = dst_address.script_pubkey@;
    let ghost req: int = amount + fee;
    let sel = match select_utxos(own_utxos, amount, fee) {
        Ok(sel) => sel,
        Err(e) => {
            return Err(e);
        },
    };
    let ghost n = u.len() as int;
    let ghost c = sel.len() as nat;
    let mut inputs: Vec<TxIn> = Vec::new();
    let mut prevouts: Vec<TxOut> = Vec::new();
    let mut total: u128 = 0;
    let mut j: usize = 0;
    while j < sel.len()
        invariant
            j <= sel.len(),
            sel@ == selected(u, req),
            c == sel.len(),
            c <= n,
            n == u.len(),
            u == own_utxos@,
            own == own_address.script_pubkey@,
            total == newest_sum(u, j as nat),
            inputs.len() == j,
            prevouts.len() == j,
            forall|k: int| 0 <= k < j ==> #[trigger] inputs@[k]@ == spend_input(sel@[k]),
            forall|k: int|
                0 <= k < j ==> #[trigger] prevouts@[k]@ == (TxOutView {
                    value: sel@[k].value,
                    script_pubkey: own,
                }),
        decreases sel.len() - j,
    {
        proof {
            lemma_newest_sum_bounds(u, (j + 1) as nat);
        }
        let s = sel[j];
        total = total + s.value as u128;
        inputs.push(
            TxIn {
                previous_output: s.outpoint,
                script_sig: Vec::new(),
                sequence: SEQUENCE_FINAL,
            },
        );
        prevouts.push(TxOut { value: s.value, script_pubkey: copy_bytes(&own_address.script_pubkey) });
        j = j + 1;
    }
    let required: u128 = amount as u128 + fee as u128;
    let change_total: u128 = total - required;
    let mut outputs: Vec<TxOut> = Vec::new();
    outputs.push(TxOut { value: amount, script_pubkey: copy_bytes(&dst_address.script_pubkey) });
    proof {
        assert(newest_sum(u, (c - 1) as nat) < req);
        assert(c == selection_count(u, req, 0));
        assert(change_total < 0x1_0000_0000_0000_0000);
    }
    if change_total >= DUST_THRESHOLD as u128 {
        outputs.push(
            TxOut { value: change_total as u64, script_pubkey: copy_bytes(&own_address.script_pubkey) },
        );
    }
    let tx = Transaction { version: TX_VERSION, lock_time: 0, input: inputs, output: outputs };
    proof {
        let sv = selected(u, req);
        assert(tx@.input =~= sv.map_values(|x: Utxo| spend_input(x)));
        assert(tx@.output =~= assembled_outputs(u, own, dst, amount, fee));
        assert(prevouts@.map_values(|o: TxOut| o@) =~= sv.map_values(
            |x: Utxo| TxOutView { value: x.value, script_pubkey: own },
        ));
    }
    Ok((tx, prevouts))
}

} // verus!

verus! {

/// The selection takes at least one output and covers what is required,
/// and every shorter run of newest outputs falls short.
pub proof fn lemma_selected_covers(utxos: Seq<Utxo>, required: int)
    requires
        required >= 1,
        total_value(utxos) >= required,
    ensures
        1 <= selection_count(utxos, required, 0) <= utxos.len(),
        newest_sum(utxos, selection_count(utxos, required, 0)) >= required,
        newest_sum(utxos, (selection_count(utxos, required, 0) - 1) as nat) < required,
{
    lemma_selection_count_bounds(utxos, required, 0);
    let c = selection_count(utxos, required, 0);
    if utxos.len() == 0 {
        assert(total_value(utxos) == 0);
    }
    if c >= 2 {
        assert(0 < (c - 1) as nat && (c - 1) < c);
    }
}

proof fn lemma_prevout_sum(utxos: Seq<Utxo>, required: int, own: Seq<u8>, k: nat)
    requires
        k <= selection_count(utxos, required, 0),
        selection_count(utxos, required, 0) <= utxos.len(),
    ensures
        crate::transaction::sum_output_values(
            selected(utxos, required).map_values(
                |u: Utxo| TxOutView { value: u.value, script_pubkey: own },
            ).take(k as int),
        ) == newest_sum(utxos, k),
    decreases k,
{
    let s = selected(utxos, required).map_values(
        |u: Utxo| TxOutView { value: u.value, script_pubkey: own },
    );
    if k > 0 {
        lemma_prevout_sum(utxos, required, own, (k - 1) as nat);
        assert(s.take(k as int).drop_last() =~= s.take(k - 1));
    }
}

/// Value is conserved: the spent outputs pay exactly for the created outputs
/// and the fee, where change too small to pay out counts towards the fee.
/// Signing changes no output.
pub proof fn lemma_conservation(
    utxos: Seq<Utxo>,
    own: Seq<u8>,
    dst: Seq<u8>,
    amount: u64,
    fee: u64,
    der_sigs: Seq<Seq<u8>>,
    pubkey: Seq<u8>,
)
    requires
        amount > 0,
        assembled(utxos, own, dst, amount, fee) is Ok,
    ensures
        ({
            let (tx, prevouts) = assembled(utxos, own, dst, amount, fee)->Ok_0;
            let signed = crate::signing::signed_view(tx, der_sigs, pubkey);
            let change = change_value(utxos, amount, fee);
            &&& signed.output == tx.output
            &&& crate::transaction::sum_output_values(prevouts)
                == crate::transaction::sum_output_values(signed.output) + fee + (if change
                >= DUST_THRESHOLD {
                0
            } else {
                change
            })
            &&& crate::transaction::sum_output_values(prevouts)
                >= crate::transaction::sum_output_values(signed.output) + fee
        }),
{
    let req = amount + fee;
    lemma_selected_covers(utxos, req);
    let c = selection_count(utxos, req, 0);
    let (tx, prevouts) = assembled(utxos, own, dst, amount, fee)->Ok_0;
    lemma_prevout_sum(utxos, req, own, c);
    assert(prevouts.take(c as int) =~= prevouts);
    let n = utxos.len();
    assert(newest_sum(utxos, c) == newest_sum(utxos, (c - 1) as nat) + utxos[n - c].value);
    let change = change_value(utxos, amount, fee);
    assert(0 <= change < 0x1_0000_0000_0000_0000);
    let outs = tx.output;
    assert(outs == assembled_outputs(utxos, own, dst, amount, fee));
    reveal_with_fuel(crate::transaction::sum_output_values, 3);
    if change >= DUST_THRESHOLD {
        assert(outs.drop_last().drop_last() =~= Seq::<TxOutView>::empty());
        assert(crate::transaction::sum_output_values(outs.drop_last()) == amount);
        assert(crate::transaction::sum_output_values(outs) == amount + change);
    } else {
        assert(outs.drop_last() =~= Seq::<TxOutView>::empty());
        assert(crate::transaction::sum_output_values(outs) == amount);
    }
    assert(crate::signing::signed_view(tx, der_sigs, pubkey).output == outs);
}

/// Change below the dust threshold is not paid out: the transaction then has
/// the payment as its only output. Otherwise a second output pays the change
/// back to the source script.
pub proof fn lemma_dust_suppression(
    utxos: Seq<Utxo>,
    own: Seq<u8>,
    dst: Seq<u8>,
    amount: u64,
    fee: u64,
)
    requires
        amount > 0,
        assembled(utxos, own, dst, amount, fee) is Ok,
    ensures
        ({
            let tx = assembled(utxos, own, dst, amount, fee)->Ok_0.0;
            let change = change_value(utxos, amount, fee);
            &&& change == newest_sum(utxos, selected(utxos, amount + fee).len()) - amount - fee
            &&& tx.output[0] == (TxOutView { value: amount, script_pubkey: dst })
            &&& change < DUST_THRESHOLD ==> tx.output.len() == 1
            &&& change >= DUST_THRESHOLD ==> tx.output.len() == 2 && tx.output[1].value == change
                && tx.output[1].script_pubkey == own
        }),
{
    let req = amount + fee;
    lemma_selected_covers(utxos, req);
    let c = selection_count(utxos, req, 0);
    let n = utxos.len();
    assert(newest_sum(utxos, c) == newest_sum(utxos, (c - 1) as nat) + utxos[n - c].value);
}

} // verus!
