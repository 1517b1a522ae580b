use crate::execute::admin_update_admin::{admin_update_admin, admin_update_admin_outcome};
use crate::execute::admin_update_deposit_required_attributes::{
    admin_update_deposit_required_attributes, admin_update_deposit_required_attributes_outcome,
};
use crate::execute::admin_update_withdraw_required_attributes::{
    admin_update_withdraw_required_attributes, admin_update_withdraw_required_attributes_outcome,
};
use crate::execute::fund_trading::{fund_trading, fund_trading_fault, fund_trading_outcome};
use crate::execute::withdraw_trading::{
    withdraw_trading, withdraw_trading_fault, withdraw_trading_outcome,
};
use crate::instantiate::instantiate_contract::{instantiate_contract, instantiate_outcome};
use crate::migrate::migrate_contract::{migrate_contract, migration_outcome};
use crate::query::query_contract_state::query_contract_state;
use crate::store::contract_state::{
    missing_state_fault, ContractStateV1, ContractStateV1View, Storage, CONTRACT_TYPE,
    CONTRACT_VERSION,
};
use crate::types::error::{fails_with, ContractError, ContractErrorView};
use crate::types::denom::{Denom, DenomView};
use crate::types::host::{Env, MessageInfo};
use crate::types::ledger::{page_views, LedgerAnswers, LedgerQuestion, LedgerQuestionView};
use crate::types::msg::{ExecuteMsg, InstantiateMsg, MigrateMsg, QueryMsg};
use crate::types::response::Response;
use crate::util::provenance_utils::{
    attribute_progress, attribute_step, balance_fault, balance_text,
    check_account_has_enough_denom, AttributeStep, MAX_ATTRIBUTE_PAGES,
};
use crate::util::self_validating::{validation_fault, SelfValidating};
use crate::util::text_utils::texts;
use crate::util::trade_utils::{check_trade, trade_fault};
use crate::util::validation_utils::{
    check_funds_are_empty, funds_fault, funds_provided_message,
};
use vstd::prelude::*;

verus! {

/// What an instantiation message makes of the store and hands back: a message that does
/// not validate fails with its validation error and changes nothing; a valid one is
/// carried out.
pub open spec fn instantiate_entry_outcome(
    before: Option<ContractStateV1View>,
    after: Option<ContractStateV1View>,
    result: Result<Response, ContractError>,
    contract_address: Seq<char>,
    funds: nat,
    sender: Seq<char>,
    msg: InstantiateMsg,
) -> bool {
    match validation_fault(msg.complaint()) {
        Some(fault) => fails_with(result, fault) && after == before,
        None => instantiate_outcome(before, after, result, contract_address, funds, sender, msg),
    }
}

/// The entry point used when an account instantiates this contract.
///
/// # Parameters
///
/// * `storage` The store of the contract instance.
/// * `env` Describes the contract instance that is created.
/// * `info` Describes the sender of the instantiation message, as well as the funds provided as
/// an amount during the transaction.
/// * `msg` The instantiation message that creates the initial configuration of the contract.
pub fn instantiate(
    storage: &mut Storage,
    env: &Env,
    info: &MessageInfo,
    msg: &InstantiateMsg,
) -> (result: Result<Response, ContractError>)
    ensures
        instantiate_entry_outcome(
            old(storage)@,
            final(storage)@,
            result,
            env.contract_address@,
            info.funds@.len(),
            info.sender@,
            *msg,
        ),
{
    msg.self_validate()?;
    instantiate_contract(storage, env, info, msg)
}

/// What the ledger is to be asked next for a trade of `amount` of the source denom for the
/// target denom. The questions follow the order in which the trade is judged, and none is
/// asked once a fault was found: first the balance of the sender in the source denom; then,
/// where the balance is in order, the pages of the sender's attributes, one by one, as
/// long as the check of the attributes asks for another; then, where the whole trade is in
/// order and the route needs it, the marker of the source denom.
pub open spec fn trade_question(
    sender: Seq<char>,
    source: DenomView,
    target: DenomView,
    required_attributes: Seq<Seq<char>>,
    answers: LedgerAnswers,
    amount: u128,
    asks_marker: bool,
) -> LedgerQuestionView {
    let balance = balance_text(answers.balance);
    let pages = page_views(answers.attribute_pages@);
    if !answers.balance_asked {
        LedgerQuestionView::Balance { denom: source.name }
    } else if balance_fault(sender, source.name, balance, amount) is Some {
        LedgerQuestionView::Nothing
    } else if attribute_progress(required_attributes, pages) is Fetch {
        LedgerQuestionView::Attributes {
            page: attribute_progress(required_attributes, pages)->Fetch_0,
        }
    } else if trade_fault(sender, source, target, required_attributes, balance, pages, amount)
        is Some {
        LedgerQuestionView::Nothing
    } else if asks_marker && !answers.marker_asked {
        LedgerQuestionView::Marker { denom: source.name }
    } else {
        LedgerQuestionView::Nothing
    }
}

/// What the ledger is to be asked next before an execution message can be decided. A
/// message that does not validate, a call that carries funds, a contract without a stored
/// configuration and the routes of the admin ask nothing. To fund trading asks what the
/// trade of deposit denom for trading denom asks, without a marker; to withdraw trading
/// asks what the trade of trading denom for deposit denom asks, and the marker of the
/// trading denom.
pub open spec fn next_question(
    stored: Option<ContractStateV1View>,
    funds: nat,
    sender: Seq<char>,
    msg: ExecuteMsg,
    answers: LedgerAnswers,
) -> LedgerQuestionView {
    if msg.complaint() is Some || funds_fault(funds) is Some {
        LedgerQuestionView::Nothing
    } else {
        match (stored, msg) {
            (Some(stored), ExecuteMsg::FundTrading { trade_amount }) => trade_question(
                sender,
                stored.deposit_marker,
                stored.trading_marker,
                stored.required_deposit_attributes,
                answers,
                trade_amount,
                false,
            ),
            (Some(stored), ExecuteMsg::WithdrawTrading { trade_amount }) => trade_question(
                sender,
                stored.trading_marker,
                stored.deposit_marker,
                stored.required_withdraw_attributes,
                answers,
                trade_amount,
                true,
            ),
            _ => LedgerQuestionView::Nothing,
        }
    }
}

fn question_for_trade(
    sender: &str,
    source: &Denom,
    target: &Denom,
    required_attributes: &[String],
    answers: &LedgerAnswers,
    amount: u128,
    asks_marker: bool,
) -> (question: LedgerQuestion)
    ensures
        question@ == trade_question(
            sender@,
            source@,
            target@,
            texts(required_attributes@),
            *answers,
            amount,
            asks_marker,
        ),
        question is Attributes ==> answers.attribute_pages@.len() < MAX_ATTRIBUTE_PAGES,
{
    if !answers.balance_asked {
        return LedgerQuestion::Balance { denom: source.name.clone() };
    }
    if check_account_has_enough_denom(
        sender,
        source.name.as_str(),
        &answers.balance,
        amount,
    ).is_err() {
        return LedgerQuestion::Nothing;
    }
    match attribute_step(required_attributes, answers.attribute_pages.as_slice()) {
        AttributeStep::Fetch(page) => {
            return LedgerQuestion::Attributes { page };
        },
        _ => {},
    }
    if check_trade(
        sender,
        source,
        target,
        required_attributes,
        &answers.balance,
        answers.attribute_pages.as_slice(),
        amount,
    ).is_err() {
        return LedgerQuestion::Nothing;
    }
    if asks_marker && !answers.marker_asked {
        LedgerQuestion::Marker { denom: source.name.clone() }
    } else {
        LedgerQuestion::Nothing
    }
}

/// Tells what the ledger is to be asked next before an execution message can be decided.
/// The caller asks the ledger, adds the answer to the answers, and asks again, until
/// nothing is left to ask: then the message and the answers go to [execute]. No question
/// comes twice, nor after a fault that decides the message without it, and no more pages
/// of attributes are asked for than
/// [MAX_ATTRIBUTE_PAGES](crate::util::provenance_utils::MAX_ATTRIBUTE_PAGES).
///
/// # Parameters
///
/// * `storage` The store of the contract instance.
/// * `info` Describes the sender of the message, as well as the funds provided as an amount
/// during the transaction.
/// * `msg` The execution message that is to be carried out.
/// * `answers` What the ledger answered so far.
pub fn ledger_question(
    storage: &Storage,
    info: &MessageInfo,
    msg: &ExecuteMsg,
    answers: &LedgerAnswers,
) -> (question: LedgerQuestion)
    ensures
        question@ == next_question(storage@, info.funds@.len(), info.sender@, *msg, *answers),
        question is Balance ==> !answers.balance_asked,
        question is Attributes ==> answers.attribute_pages@.len() < MAX_ATTRIBUTE_PAGES,
        question is Marker ==> !answers.marker_asked,
{
    if msg.self_validate().is_err() {
        return LedgerQuestion::Nothing;
    }
    if check_funds_are_empty(info).is_err() {
        return LedgerQuestion::Nothing;
    }
    match &storage.contract_state {
        None => LedgerQuestion::Nothing,
        Some(state) => match msg {
            ExecuteMsg::FundTrading { trade_amount } => question_for_trade(
                info.sender.as_str(),
                &state.deposit_marker,
                &state.trading_marker,
                state.required_deposit_attributes.as_slice(),
                answers,
                *trade_amount,
                false,
            ),
            ExecuteMsg::WithdrawTrading { trade_amount } => question_for_trade(
                info.sender.as_str(),
                &state.trading_marker,
                &state.deposit_marker,
                state.required_withdraw_attributes.as_slice(),
                answers,
                *trade_amount,
                true,
            ),
            _ => LedgerQuestion::Nothing,
        },
    }
}

/// What a valid execution message makes of the store and hands back: what its route makes
/// of it. The two trade routes leave the store as it was.
pub open spec fn route_outcome(
    before: Option<ContractStateV1View>,
    after: Option<ContractStateV1View>,
    result: Result<Response, ContractError>,
    contract_address: Seq<char>,
    funds: nat,
    sender: Seq<char>,
    msg: ExecuteMsg,
    ledger: LedgerAnswers,
) -> bool {
    match msg {
        ExecuteMsg::AdminUpdateAdmin { new_admin_address } => admin_update_admin_outcome(
            before,
            after,
            result,
            contract_address,
            funds,
            sender,
            new_admin_address@,
        ),
        ExecuteMsg::AdminUpdateDepositRequiredAttributes { attributes } => {
            admin_update_deposit_required_attributes_outcome(
                before,
                after,
                result,
                contract_address,
                funds,
                sender,
                texts(attributes@),
            )
        },
        ExecuteMsg::AdminUpdateWithdrawRequiredAttributes { attributes } => {
            admin_update_withdraw_required_attributes_outcome(
                before,
                after,
                result,
                contract_address,
                funds,
                sender,
                texts(attributes@),
            )
        },
        ExecuteMsg::FundTrading { trade_amount } => {
            &&& after == before
            &&& fund_trading_outcome(
                result,
                before,
                contract_address,
                funds,
                sender,
                balance_text(ledger.balance),
                page_views(ledger.attribute_pages@),
                trade_amount,
            )
        },
        ExecuteMsg::WithdrawTrading { trade_amount } => {
            &&& after == before
            &&& withdraw_trading_outcome(
                result,
                before,
                contract_address,
                funds,
                sender,
                balance_text(ledger.balance),
                page_views(ledger.attribute_pages@),
                ledger.marker,
                trade_amount,
            )
        },
    }
}

/// What an execution message makes of the store and hands back: a message that does not
/// validate fails with its validation error and changes nothing; a valid one goes to its
/// route.
pub open spec fn execute_outcome(
    before: Option<ContractStateV1View>,
    after: Option<ContractStateV1View>,
    result: Result<Response, ContractError>,
    contract_address: Seq<char>,
    funds: nat,
    sender: Seq<char>,
    msg: ExecuteMsg,
    ledger: LedgerAnswers,
) -> bool {
    match validation_fault(msg.complaint()) {
        Some(fault) => fails_with(result, fault) && after == before,
        None => route_outcome(before, after, result, contract_address, funds, sender, msg, ledger),
    }
}

/// The entry point used when an account initiates an execution process defined in the contract.
/// This defines the primary purposes of the contract.
///
/// # Parameters
///
/// * `storage` The store of the contract instance.
/// * `env` Describes the contract instance that runs the route.
/// * `info` Describes the sender of the message, as well as the funds provided as an amount
/// during the transaction.
/// * `msg` The execution message, which names the route and carries what the route needs.
/// * `ledger` What the ledger answered to the questions that [ledger_question] named for the
/// message.
pub fn execute(
    storage: &mut Storage,
    env: &Env,
    info: &MessageInfo,
    msg: ExecuteMsg,
    ledger: &LedgerAnswers,
) -> (result: Result<Response, ContractError>)
    ensures
        execute_outcome(
            old(storage)@,
            final(storage)@,
            result,
            env.contract_address@,
            info.funds@.len(),
            info.sender@,
            msg,
            *ledger,
        ),
{
    msg.self_validate()?;
    match msg {
        ExecuteMsg::AdminUpdateAdmin { new_admin_address } => admin_update_admin(
            storage,
            env,
            info,
            new_admin_address,
        ),
        ExecuteMsg::AdminUpdateDepositRequiredAttributes { attributes } => {
            admin_update_deposit_required_attributes(storage, env, info, attributes)
        },
        ExecuteMsg::AdminUpdateWithdrawRequiredAttributes { attributes } => {
            admin_update_withdraw_required_attributes(storage, env, info, attributes)
        },
        ExecuteMsg::FundTrading { trade_amount } => fund_trading(
            storage,
            env,
            info,
            &ledger.balance,
            ledger.attribute_pages.as_slice(),
            trade_amount,
        ),
        ExecuteMsg::WithdrawTrading { trade_amount } => withdraw_trading(
            storage,
            env,
            info,
            &ledger.balance,
            ledger.attribute_pages.as_slice(),
            &ledger.marker,
            trade_amount,
        ),
    }
}

/// The entry point used when an account invokes the contract to retrieve information.  Allows
/// access to the internal storage information in an immutable manner.
///
/// # Parameters
///
/// * `storage` The store of the contract instance.
/// * `msg` The query message, which names what is asked for.
pub fn query(storage: &Storage, msg: &QueryMsg) -> (result: Result<ContractStateV1, ContractError>)
    ensures
        match storage@ {
            Some(stored) => result matches Ok(state) && state@ == stored,
            None => fails_with(result, missing_state_fault()),
        },
{
    msg.self_validate()?;
    match msg {
        QueryMsg::QueryContractState {} => query_contract_state(storage),
    }
}

/// The entry point used when the contract admin migrates an existing instance of this contract to
/// a new stored code instance on chain.
///
/// # Parameters
///
/// * `storage` The store of the contract instance.
/// * `msg` The migration message, which names the kind of migration.
pub fn migrate(storage: &mut Storage, msg: &MigrateMsg) -> (result: Result<Response, ContractError>)
    ensures
        migration_outcome(
            old(storage)@,
            final(storage)@,
            result,
            CONTRACT_TYPE@,
            CONTRACT_VERSION@,
        ),
{
    msg.self_validate()?;
    match msg {
        MigrateMsg::ContractUpgrade {} => migrate_contract(storage),
    }
}

/// Whatever route a valid execution message takes, a call that carries funds fails with the
/// error for attached funds, and the store is left as it was.
pub proof fn lemma_no_route_takes_funds(
    before: Option<ContractStateV1View>,
    after: Option<ContractStateV1View>,
    result: Result<Response, ContractError>,
    contract_address: Seq<char>,
    funds: nat,
    sender: Seq<char>,
    msg: ExecuteMsg,
    ledger: LedgerAnswers,
)
    requires
        funds > 0,
        route_outcome(before, after, result, contract_address, funds, sender, msg, ledger),
    ensures
        fails_with(
            result,
            ContractErrorView::InvalidFundsError { message: funds_provided_message() },
        ),
        after == before,
{
}

/// An instantiation that carries funds fails with the error for attached funds, and the
/// store is left as it was.
pub proof fn lemma_instantiation_takes_no_funds(
    before: Option<ContractStateV1View>,
    after: Option<ContractStateV1View>,
    result: Result<Response, ContractError>,
    contract_address: Seq<char>,
    funds: nat,
    sender: Seq<char>,
    msg: InstantiateMsg,
)
    requires
        funds > 0,
        instantiate_outcome(before, after, result, contract_address, funds, sender, msg),
    ensures
        fails_with(
            result,
            ContractErrorView::InvalidFundsError { message: funds_provided_message() },
        ),
        after == before,
{
}

/// Whether an execution message takes a route that only the admin may take.
pub open spec fn admin_only(msg: ExecuteMsg) -> bool {
    msg is AdminUpdateAdmin || msg is AdminUpdateDepositRequiredAttributes
        || msg is AdminUpdateWithdrawRequiredAttributes
}

/// A sender who is not the admin of the stored configuration, and attaches no funds, is
/// turned away from every route that only the admin may take: the call fails as not
/// authorized, and the store is left as it was.
pub proof fn lemma_admin_routes_turn_other_senders_away(
    stored: ContractStateV1View,
    after: Option<ContractStateV1View>,
    result: Result<Response, ContractError>,
    contract_address: Seq<char>,
    sender: Seq<char>,
    msg: ExecuteMsg,
    ledger: LedgerAnswers,
)
    requires
        admin_only(msg),
        sender != stored.admin,
        route_outcome(Some(stored), after, result, contract_address, 0, sender, msg, ledger),
    ensures
        result matches Err(ContractError::NotAuthorizedError { .. }),
        after == Some(stored),
{
}

/// Once nothing is left to ask, a trade that is found without fault rests on answers that
/// the ledger gave: the balance was asked for, and to withdraw trading the marker was
/// asked for as well.
pub proof fn lemma_a_trade_without_fault_was_asked_for(
    stored: Option<ContractStateV1View>,
    funds: nat,
    sender: Seq<char>,
    msg: ExecuteMsg,
    answers: LedgerAnswers,
)
    requires
        next_question(stored, funds, sender, msg, answers) is Nothing,
        msg.complaint() is None,
    ensures
        match msg {
            ExecuteMsg::FundTrading { trade_amount } => fund_trading_fault(
                stored,
                funds,
                sender,
                balance_text(answers.balance),
                page_views(answers.attribute_pages@),
                trade_amount,
            ) is None ==> answers.balance_asked,
            ExecuteMsg::WithdrawTrading { trade_amount } => withdraw_trading_fault(
                stored,
                funds,
                sender,
                balance_text(answers.balance),
                page_views(answers.attribute_pages@),
                answers.marker,
                trade_amount,
            ) is None ==> answers.balance_asked && answers.marker_asked,
            _ => true,
        },
{
}

} // verus!
