use vstd::prelude::*;

use crate::storage::state::{get_contract_info, ContractStorage};
use crate::types::coin::{coin_text, Coin};
use crate::types::contract_info::ContractInfo;
use crate::types::error::ContractError;
use crate::util::constants::NHASH;

verus! {

/// A directive to charge a fee: `amount` is charged, with `memo` shown to the signer, on behalf
/// of `from` (the contract), and paid to `recipient`.
#[derive(Clone, Debug, PartialEq, Eq)]
pub struct FeeCharge {
    pub amount: Coin,
    pub memo: String,
    pub from: String,
    pub recipient: String,
}

/// The memo of a fee: `"<fee_type> nhash fee"`.
pub open spec fn fee_memo(fee_type: Seq<char>) -> Seq<char> {
    fee_type + " "@ + NHASH@ + " fee"@
}

/// The fee charge for `amount` nhash of the given type, payable to the admin of `info`.
pub open spec fn fee_charge(
    fee_type: Seq<char>,
    info: ContractInfo,
    contract_addr: Seq<char>,
    amount: u128,
) -> (Seq<char>, u128, Seq<char>, Seq<char>, Seq<char>) {
    (NHASH@, amount, fee_memo(fee_type), contract_addr, info.admin@)
}

/// What a fee charge holds, as plain values: denomination, amount, memo, payer, recipient.
pub open spec fn charge_view(charge: FeeCharge) -> (Seq<char>, u128, Seq<char>, Seq<char>, Seq<char>) {
    (charge.amount.denom@, charge.amount.amount, charge.memo@, charge.from@, charge.recipient@)
}

/// Decides the fee of an operation: the amount that `fee_calculation` reads from the stored
/// settings. A zero amount gives no charge; any other amount gives one charge of that many
/// nhash, payable to the admin. Fails if no settings are stored.
pub fn generate_contract_fee_msg<F: Fn(&ContractInfo) -> u128>(
    fee_type: &str,
    storage: &ContractStorage,
    contract_addr: &str,
    fee_calculation: F,
) -> (r: Result<Option<FeeCharge>, ContractError>)
    requires
        forall|c: &ContractInfo| fee_calculation.requires((c,)),
    ensures
        r is Err <==> storage.contract_info is None,
        r matches Err(e) ==> e is StorageError,
        r matches Ok(None) ==> fee_calculation.ensures((&storage.contract_info->Some_0,), 0u128),
        r matches Ok(Some(charge)) ==> charge.amount.amount > 0 && fee_calculation.ensures(
            (&storage.contract_info->Some_0,),
            charge.amount.amount,
        ) && charge_view(charge) == fee_charge(
            fee_type@,
            storage.contract_info->Some_0,
            contract_addr@,
            charge.amount.amount,
        ),
{
    let info = get_contract_info(storage)?;
    let amount = fee_calculation(info);
    if amount > 0 {
        let mut memo = String::from_str(fee_type);
        memo.append(" ");
        memo.append(NHASH);
        memo.append(" fee");
        Ok(
            Some(
                FeeCharge {
                    amount: Coin { denom: String::from_str(NHASH), amount },
                    memo,
                    from: String::from_str(contract_addr),
                    recipient: info.admin.clone(),
                },
            ),
        )
    } else {
        Ok(None)
    }
}

/// The amount of a fee charge as text: its amount in decimal followed by its denomination.
pub fn get_custom_fee_amount_display(charge: &FeeCharge) -> (r: String)
    ensures
        r@ == coin_text(charge.amount),
{
    charge.amount.display()
}

} // verus!
