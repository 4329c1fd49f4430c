//! The forward orchestrator.
//!
//! A forward call reads the forwarder's balance, has the transmitter mint,
//! reads the balance again, checks that what was gained is what the message
//! attests, and pays it out to the recipient that the hook data names.
//!
//! Balances, the transmitter and the ledger are outside this library. The
//! orchestrator is therefore a state machine. A [`Call`] is a forward call in
//! flight. At any time it waits for one [`Action`] to be carried out by the
//! driver, who reports the outcome as an [`Event`]; [`Forwarder::resume`]
//! takes the call to its next stage. The action asked for depends on the
//! stage alone, and an event that does not answer it leaves the call as it
//! is.

use vstd::prelude::*;
use vstd::slice::slice_to_vec;
use crate::address::{Address, AddressView, Recipient, RecipientView};
use crate::error::ForwardError;
use crate::hook_data::{parse_hook_data, parse_hook_data_xdr, resolved, ResolveMode};
use crate::message::{decoded, parse_message};

verus! {

/// The names of the two configuration slots.
#[derive(Clone, Copy, Debug, PartialEq, Eq, Structural)]
pub enum DataKey {
    /// The address of the token that is forwarded.
    Asset,
    /// The address of the transmitter.
    Transmitter,
}

/// Whether the transmitter is handed an attestation beside the message.
#[derive(Clone, Copy, Debug, PartialEq, Eq, Structural)]
pub enum AttestationPolicy {
    /// The transmitter is called with the message alone.
    Omitted,
    /// The transmitter is called with the message and the attestation.
    Forwarded,
}

/// How the encoding of the hook data is chosen.
#[derive(Clone, Copy, Debug, PartialEq, Eq, Structural)]
pub enum HookDataPolicy {
    /// Hook data is always an address string.
    StringOnly,
    /// The caller's flag says whether hook data is serialized.
    Selected,
    /// Hook data that reads as an address string is one; other hook data
    /// is taken as serialized.
    Inferred,
}

/// The forwarder's configuration: two addresses and two policies, fixed
/// when it is made.
#[derive(Clone, Copy, Debug, PartialEq, Eq)]
pub struct Forwarder {
    asset: Address,
    transmitter: Address,
    attestation: AttestationPolicy,
    hook_data: HookDataPolicy,
}

/// The mathematical value of a [`Forwarder`].
pub struct ForwarderView {
    pub asset: AddressView,
    pub transmitter: AddressView,
    pub attestation: AttestationPolicy,
    pub hook_data: HookDataPolicy,
}

impl View for Forwarder {
    type V = ForwarderView;

    closed spec fn view(&self) -> ForwarderView {
        ForwarderView {
            asset: self.asset@,
            transmitter: self.transmitter@,
            attestation: self.attestation,
            hook_data: self.hook_data,
        }
    }
}

/// Leave to make exactly one call: this function of this contract, with
/// these arguments and no others. It is made anew for each forward call.
#[derive(Clone, Debug, PartialEq, Eq)]
pub struct AuthorizationGrant {
    /// The contract that may be called.
    pub contract: Address,
    /// The function that may be called.
    pub fn_name: &'static str,
    /// The first argument: the message.
    pub message: Vec<u8>,
    /// The second argument, where the transmitter takes one.
    pub attestation: Option<Vec<u8>>,
}

/// The mathematical value of an [`AuthorizationGrant`].
pub struct GrantView {
    pub contract: AddressView,
    pub fn_name: Seq<char>,
    pub message: Seq<u8>,
    pub attestation: Option<Seq<u8>>,
}

impl View for AuthorizationGrant {
    type V = GrantView;

    open spec fn view(&self) -> GrantView {
        GrantView {
            contract: self.contract@,
            fn_name: self.fn_name@,
            message: self.message@,
            attestation: match self.attestation {
                Some(a) => Some(a@),
                None => None,
            },
        }
    }
}

/// What the driver reports back.
#[derive(Clone, Copy, Debug, PartialEq, Eq, Structural)]
pub enum Event {
    /// The forwarder's balance of the asset was read.
    Balance(i128),
    /// The transmitter returned.
    Minted,
    /// The grant was refused, or the transmitter's own authorization check failed.
    AuthorizationDenied,
    /// The ledger made the transfer.
    Transferred,
    /// The ledger refused the transfer.
    TransferFailed,
}

/// Where a forward call stands.
#[derive(Clone, Copy, Debug, PartialEq, Eq)]
pub enum Stage {
    /// Waiting for the balance before the mint.
    Snapshot,
    /// Waiting for the transmitter.
    Minting { balance_before: i128 },
    /// Waiting for the balance after the mint.
    Measuring { balance_before: i128 },
    /// Waiting for the transfer to the recipient.
    Paying { recipient: Recipient, amount: i128 },
    /// The recipient was paid.
    Completed,
    /// The call was abandoned.
    Aborted(ForwardError),
}

/// The mathematical value of a [`Stage`].
pub enum StageView {
    Snapshot,
    Minting { balance_before: i128 },
    Measuring { balance_before: i128 },
    Paying { recipient: RecipientView, amount: i128 },
    Completed,
    Aborted(ForwardError),
}

impl View for Stage {
    type V = StageView;

    open spec fn view(&self) -> StageView {
        match *self {
            Stage::Snapshot => StageView::Snapshot,
            Stage::Minting { balance_before } => StageView::Minting { balance_before },
            Stage::Measuring { balance_before } => StageView::Measuring { balance_before },
            Stage::Paying { recipient, amount } => StageView::Paying { recipient: recipient@, amount },
            Stage::Completed => StageView::Completed,
            Stage::Aborted(e) => StageView::Aborted(e),
        }
    }
}

/// What the driver is asked to do.
#[derive(Clone, Debug, PartialEq, Eq)]
pub enum Action {
    /// Read the forwarder's own balance of `asset` and report it.
    ReadBalance { asset: Address },
    /// Authorize the call that the grant describes, as the forwarder
    /// itself, and make it.
    Invoke(AuthorizationGrant),
    /// Transfer `amount` of `asset` from the forwarder to `to`.
    Transfer { asset: Address, to: Recipient, amount: i128 },
    /// Nothing is left to do: the call succeeded.
    Finish,
    /// Abort the whole call, undoing all it did.
    Abort(ForwardError),
}

/// The mathematical value of an [`Action`].
pub enum ActionView {
    ReadBalance { asset: AddressView },
    Invoke(GrantView),
    Transfer { asset: AddressView, to: RecipientView, amount: i128 },
    Finish,
    Abort(ForwardError),
}

impl View for Action {
    type V = ActionView;

    open spec fn view(&self) -> ActionView {
        match *self {
            Action::ReadBalance { asset } => ActionView::ReadBalance { asset: asset@ },
            Action::Invoke(grant) => ActionView::Invoke(grant@),
            Action::Transfer { asset, to, amount } => ActionView::Transfer {
                asset: asset@,
                to: to@,
                amount,
            },
            Action::Finish => ActionView::Finish,
            Action::Abort(e) => ActionView::Abort(e),
        }
    }
}

/// A forward call in flight: what the caller passed in, and the stage
/// reached.
#[derive(Clone, Debug, PartialEq, Eq)]
pub struct Call {
    message: Vec<u8>,
    xdr_hook_data: bool,
    attestation: Vec<u8>,
    stage: Stage,
}

/// The mathematical value of a [`Call`].
pub struct CallView {
    pub message: Seq<u8>,
    pub xdr_hook_data: bool,
    pub attestation: Seq<u8>,
    pub stage: StageView,
}

impl View for Call {
    type V = CallView;

    closed spec fn view(&self) -> CallView {
        CallView {
            message: self.message@,
            xdr_hook_data: self.xdr_hook_data,
            attestation: self.attestation@,
            stage: self.stage@,
        }
    }
}

impl CallView {
    /// This call at another stage.
    pub open spec fn at(self, stage: StageView) -> CallView {
        CallView { stage, ..self }
    }
}

/// The name of the transmitter's function that the forwarder calls.
pub open spec fn receive_message_name() -> Seq<char> {
    "receive_message"@
}

/// The grant for one call of `receive_message` on `transmitter` with exactly
/// these arguments.
pub open spec fn transmitter_call(
    transmitter: AddressView,
    message: Seq<u8>,
    attestation: Option<Seq<u8>>,
) -> GrantView {
    GrantView { contract: transmitter, fn_name: receive_message_name(), message, attestation }
}

/// Describes the one call to the transmitter that a forward call makes: the
/// grant names the contract, the function and the exact arguments, and
/// covers nothing else. Authorizing and making the call is the driver's part.
pub fn call_transmitter(
    transmitter: Address,
    message: &[u8],
    attestation: Option<&[u8]>,
) -> (g: AuthorizationGrant)
    ensures
        g@ == transmitter_call(
            transmitter@,
            message@,
            match attestation {
                Some(a) => Some(a@),
                None => None,
            },
        ),
{
    AuthorizationGrant {
        contract: transmitter,
        fn_name: "receive_message",
        message: slice_to_vec(message),
        attestation: match attestation {
            Some(a) => Some(slice_to_vec(a)),
            None => None,
        },
    }
}

/// Describes the payment that ends a forward call: exactly the amount that
/// was minted, of `asset`, to the recipient. Making the transfer is the
/// driver's part.
pub fn transfer_to_recipient(
    asset: Address,
    recipient: Recipient,
    amount_minted: i128,
) -> (a: Action)
    ensures
        a@ == (ActionView::Transfer { asset: asset@, to: recipient@, amount: amount_minted }),
{
    Action::Transfer { asset, to: recipient, amount: amount_minted }
}

impl ForwarderView {
    /// The call with which a forward call on these arguments begins.
    pub open spec fn begin(message: Seq<u8>, xdr_hook_data: bool, attestation: Seq<u8>) -> CallView {
        CallView { message, xdr_hook_data, attestation, stage: StageView::Snapshot }
    }

    /// The one call that the forwarder authorizes: `receive_message` on the
    /// transmitter, with the message, and with the attestation where the
    /// policy forwards one.
    pub open spec fn grant(self, call: CallView) -> GrantView {
        transmitter_call(
            self.transmitter,
            call.message,
            match self.attestation {
                AttestationPolicy::Omitted => None,
                AttestationPolicy::Forwarded => Some(call.attestation),
            },
        )
    }

    /// The recipient that hook data names under the forwarder's policy.
    pub open spec fn recipient(
        self,
        xdr_hook_data: bool,
        hook_data: Seq<u8>,
    ) -> Option<RecipientView> {
        match self.hook_data {
            HookDataPolicy::StringOnly => resolved(hook_data, ResolveMode::StringEncoded),
            HookDataPolicy::Selected => if xdr_hook_data {
                resolved(hook_data, ResolveMode::SerializedExtended)
            } else {
                resolved(hook_data, ResolveMode::StringEncoded)
            },
            HookDataPolicy::Inferred => if resolved(hook_data, ResolveMode::StringEncoded) is Some {
                resolved(hook_data, ResolveMode::StringEncoded)
            } else {
                resolved(hook_data, ResolveMode::SerializedExtended)
            },
        }
    }

    /// The stage that follows the second reading of the balance.
    ///
    /// The message is decoded; the balance gained is held against the amount
    /// it attests; the recipient is resolved. The first of these that fails
    /// aborts the call. The gain is a difference of two balances: where it
    /// does not fit the amount's type, it cannot equal any amount.
    pub open spec fn settle(
        self,
        message: Seq<u8>,
        xdr_hook_data: bool,
        balance_before: i128,
        balance_after: i128,
    ) -> StageView {
        match decoded(message) {
            None => StageView::Aborted(ForwardError::MalformedMessage),
            Some(m) => if balance_after - balance_before != m.message_body.amount {
                StageView::Aborted(ForwardError::AmountMismatch)
            } else {
                match self.recipient(xdr_hook_data, m.message_body.hook_data) {
                    None => StageView::Aborted(ForwardError::InvalidRecipientEncoding),
                    Some(recipient) => StageView::Paying {
                        recipient,
                        amount: m.message_body.amount,
                    },
                }
            },
        }
    }

    /// The stage that a call reaches on an event.
    pub open spec fn next_stage(self, call: CallView, event: Event) -> StageView {
        match (call.stage, event) {
            (StageView::Snapshot, Event::Balance(balance)) => StageView::Minting {
                balance_before: balance,
            },
            (StageView::Minting { balance_before }, Event::Minted) => StageView::Measuring {
                balance_before,
            },
            (StageView::Minting { .. }, Event::AuthorizationDenied) => StageView::Aborted(
                ForwardError::AuthorizationDenied,
            ),
            (StageView::Measuring { balance_before }, Event::Balance(balance)) => self.settle(
                call.message,
                call.xdr_hook_data,
                balance_before,
                balance,
            ),
            (StageView::Paying { .. }, Event::Transferred) => StageView::Completed,
            (StageView::Paying { .. }, Event::TransferFailed) => StageView::Aborted(
                ForwardError::TransferFailed,
            ),
            (stage, _) => stage,
        }
    }

    /// The call after an event.
    pub open spec fn advance(self, call: CallView, event: Event) -> CallView {
        call.at(self.next_stage(call, event))
    }

    /// The call after a sequence of events.
    pub open spec fn run(self, call: CallView, events: Seq<Event>) -> CallView
        decreases events.len(),
    {
        if events.len() == 0 {
            call
        } else {
            self.advance(self.run(call, events.drop_last()), events.last())
        }
    }

    /// Whether a call that is paying pays what its message attests, to the
    /// recipient that its hook data names.
    pub open spec fn pays_as_attested(self, call: CallView) -> bool {
        call.stage matches StageView::Paying { recipient, amount } ==> {
            &&& decoded(call.message) matches Some(m)
            &&& amount == m.message_body.amount
            &&& self.recipient(call.xdr_hook_data, m.message_body.hook_data) == Some(recipient)
        }
    }

    /// What a call waits for.
    pub open spec fn action(self, call: CallView) -> ActionView {
        match call.stage {
            StageView::Snapshot => ActionView::ReadBalance { asset: self.asset },
            StageView::Minting { .. } => ActionView::Invoke(self.grant(call)),
            StageView::Measuring { .. } => ActionView::ReadBalance { asset: self.asset },
            StageView::Paying { recipient, amount } => ActionView::Transfer {
                asset: self.asset,
                to: recipient,
                amount,
            },
            StageView::Completed => ActionView::Finish,
            StageView::Aborted(e) => ActionView::Abort(e),
        }
    }
}

impl Call {
    /// The message being forwarded.
    pub fn message(&self) -> (m: &Vec<u8>)
        ensures
            m@ == self@.message,
    {
        &self.message
    }

    /// The caller's flag: whether the hook data is serialized.
    pub fn xdr_hook_data(&self) -> (flag: bool)
        ensures
            flag == self@.xdr_hook_data,
    {
        self.xdr_hook_data
    }

    /// The attestation that came with the message.
    pub fn attestation(&self) -> (a: &Vec<u8>)
        ensures
            a@ == self@.attestation,
    {
        &self.attestation
    }

    /// The stage reached.
    pub fn stage(&self) -> (s: Stage)
        ensures
            s@ == self@.stage,
    {
        self.stage
    }

    /// Whether the call has ended, in success or not.
    pub fn is_finished(&self) -> (done: bool)
        ensures
            done <==> self@.stage is Completed || self@.stage is Aborted,
    {
        match self.stage {
            Stage::Completed => true,
            Stage::Aborted(_) => true,
            _ => false,
        }
    }
}

impl Forwarder {
    /// A forwarder for `asset` and `transmitter` that hands the transmitter
    /// an attestation and lets the caller's flag choose the encoding of the
    /// hook data.
    pub fn new(asset: Address, transmitter: Address) -> (f: Forwarder)
        ensures
            f@ == (ForwarderView {
                asset: asset@,
                transmitter: transmitter@,
                attestation: AttestationPolicy::Forwarded,
                hook_data: HookDataPolicy::Selected,
            }),
    {
        Forwarder {
            asset,
            transmitter,
            attestation: AttestationPolicy::Forwarded,
            hook_data: HookDataPolicy::Selected,
        }
    }

    /// A forwarder for `asset` and `transmitter` with the given policies.
    pub fn with_policies(
        asset: Address,
        transmitter: Address,
        attestation: AttestationPolicy,
        hook_data: HookDataPolicy,
    ) -> (f: Forwarder)
        ensures
            f@ == (ForwarderView { asset: asset@, transmitter: transmitter@, attestation, hook_data }),
    {
        Forwarder { asset, transmitter, attestation, hook_data }
    }

    /// The address kept in a configuration slot.
    pub fn get(&self, key: DataKey) -> (a: Address)
        ensures
            a@ == match key {
                DataKey::Asset => self@.asset,
                DataKey::Transmitter => self@.transmitter,
            },
    {
        match key {
            DataKey::Asset => self.asset,
            DataKey::Transmitter => self.transmitter,
        }
    }

    /// The token that is forwarded.
    pub fn asset(&self) -> (a: Address)
        ensures
            a@ == self@.asset,
    {
        self.asset
    }

    /// The transmitter that mints.
    pub fn transmitter(&self) -> (a: Address)
        ensures
            a@ == self@.transmitter,
    {
        self.transmitter
    }

    /// Whether the transmitter is handed an attestation.
    pub fn attestation_policy(&self) -> (p: AttestationPolicy)
        ensures
            p == self@.attestation,
    {
        self.attestation
    }

    /// How the encoding of the hook data is chosen.
    pub fn hook_data_policy(&self) -> (p: HookDataPolicy)
        ensures
            p == self@.hook_data,
    {
        self.hook_data
    }

    /// The grant for the one call to the transmitter that a forward call
    /// makes: `receive_message`, with exactly the message, and the
    /// attestation where the policy forwards one.
    pub fn grant(&self, call: &Call) -> (g: AuthorizationGrant)
        ensures
            g@ == self@.grant(call@),
    {
        match self.attestation {
            AttestationPolicy::Omitted => call_transmitter(
                self.transmitter,
                call.message.as_slice(),
                None,
            ),
            AttestationPolicy::Forwarded => call_transmitter(
                self.transmitter,
                call.message.as_slice(),
                Some(call.attestation.as_slice()),
            ),
        }
    }

    /// Resolves hook data to a recipient under the forwarder's policy. The
    /// flag is read only where the policy leaves the choice to the caller.
    pub fn recipient(
        &self,
        xdr_hook_data: bool,
        hook_data: &[u8],
    ) -> (r: Result<Recipient, ForwardError>)
        ensures
            match r {
                Ok(recipient) => self@.recipient(xdr_hook_data, hook_data@) == Some(recipient@),
                Err(e) => e == ForwardError::InvalidRecipientEncoding && self@.recipient(
                    xdr_hook_data,
                    hook_data@,
                ) is None,
            },
            hook_data@.len() == 0 ==> r is Err,
    {
        match self.hook_data {
            HookDataPolicy::StringOnly => parse_hook_data(hook_data),
            HookDataPolicy::Selected => if xdr_hook_data {
                parse_hook_data_xdr(hook_data)
            } else {
                parse_hook_data(hook_data)
            },
            HookDataPolicy::Inferred => match parse_hook_data(hook_data) {
                Ok(recipient) => Ok(recipient),
                Err(_) => parse_hook_data_xdr(hook_data),
            },
        }
    }

    /// Decides what follows the second reading of the balance: the payment
    /// of the attested amount to the resolved recipient, or the reason to
    /// abort.
    pub fn settle(
        &self,
        message: &[u8],
        xdr_hook_data: bool,
        balance_before: i128,
        balance_after: i128,
    ) -> (stage: Stage)
        ensures
            stage@ == self@.settle(message@, xdr_hook_data, balance_before, balance_after),
    {
        let parsed = match parse_message(message) {
            Ok(m) => m,
            Err(e) => {
                return Stage::Aborted(e);
            },
        };
        let minted = match balance_after.checked_sub(balance_before) {
            Some(gain) => gain,
            None => {
                return Stage::Aborted(ForwardError::AmountMismatch);
            },
        };
        if minted != parsed.message_body.amount {
            return Stage::Aborted(ForwardError::AmountMismatch);
        }
        match self.recipient(xdr_hook_data, parsed.message_body.hook_data.as_slice()) {
            Ok(recipient) => Stage::Paying { recipient, amount: minted },
            Err(e) => Stage::Aborted(e),
        }
    }

    /// What the call waits for.
    pub fn action(&self, call: &Call) -> (a: Action)
        ensures
            a@ == self@.action(call@),
    {
        match call.stage {
            Stage::Snapshot => Action::ReadBalance { asset: self.asset },
            Stage::Minting { .. } => Action::Invoke(self.grant(call)),
            Stage::Measuring { .. } => Action::ReadBalance { asset: self.asset },
            Stage::Paying { recipient, amount } => transfer_to_recipient(
                self.asset,
                recipient,
                amount,
            ),
            Stage::Completed => Action::Finish,
            Stage::Aborted(e) => Action::Abort(e),
        }
    }

    /// Begins a forward call. Nothing is decided yet: the call waits for
    /// the balance before the mint.
    pub fn forward(
        &self,
        message: Vec<u8>,
        xdr_hook_data: bool,
        attestation: Vec<u8>,
    ) -> (begun: (Call, Action))
        ensures
            begun.0@ == ForwarderView::begin(message@, xdr_hook_data, attestation@),
            begun.1@ == self@.action(begun.0@),
            begun.1@ == (ActionView::ReadBalance { asset: self@.asset }),
            self@.pays_as_attested(begun.0@),
    {
        let call = Call { message, xdr_hook_data, attestation, stage: Stage::Snapshot };
        let action = self.action(&call);
        (call, action)
    }

    /// Takes a call to its next stage on an event, and says what it waits
    /// for then.
    pub fn resume(&self, call: Call, event: Event) -> (next: (Call, Action))
        ensures
            next.0@ == self@.advance(call@, event),
            next.1@ == self@.action(next.0@),
            self@.pays_as_attested(call@) ==> self@.pays_as_attested(next.0@),
    {
        let stage = match call.stage {
            Stage::Snapshot => match event {
                Event::Balance(balance) => Stage::Minting { balance_before: balance },
                _ => call.stage,
            },
            Stage::Minting { balance_before } => match event {
                Event::Minted => Stage::Measuring { balance_before },
                Event::AuthorizationDenied => Stage::Aborted(ForwardError::AuthorizationDenied),
                _ => call.stage,
            },
            Stage::Measuring { balance_before } => match event {
                Event::Balance(balance) => self.settle(
                    call.message.as_slice(),
                    call.xdr_hook_data,
                    balance_before,
                    balance,
                ),
                _ => call.stage,
            },
            Stage::Paying { .. } => match event {
                Event::Transferred => Stage::Completed,
                Event::TransferFailed => Stage::Aborted(ForwardError::TransferFailed),
                _ => call.stage,
            },
            Stage::Completed => call.stage,
            Stage::Aborted(_) => call.stage,
        };
        let next = Call {
            message: call.message,
            xdr_hook_data: call.xdr_hook_data,
            attestation: call.attestation,
            stage,
        };
        let action = self.action(&next);
        (next, action)
    }
}

/// Events reported one after the other: the second run goes on where the
/// first ended.
pub proof fn lemma_run_split(f: ForwarderView, call: CallView, first: Seq<Event>, then: Seq<Event>)
    ensures
        f.run(call, first + then) == f.run(f.run(call, first), then),
    decreases then.len(),
{
    if then.len() == 0 {
        assert(first + then =~= first);
    } else {
        assert((first + then).drop_last() =~= first + then.drop_last());
        lemma_run_split(f, call, first, then.drop_last());
    }
}

/// A call that has ended stays as it is, whatever is reported to it.
pub proof fn lemma_finished_stays(f: ForwarderView, call: CallView, events: Seq<Event>)
    requires
        call.stage is Completed || call.stage is Aborted,
    ensures
        f.run(call, events) == call,
    decreases events.len(),
{
    if events.len() > 0 {
        lemma_finished_stays(f, call, events.drop_last());
    }
}

/// What the caller passed in stays with the call through every event.
pub proof fn lemma_run_keeps_arguments(f: ForwarderView, call: CallView, events: Seq<Event>)
    ensures
        f.run(call, events) == call.at(f.run(call, events).stage),
    decreases events.len(),
{
    if events.len() > 0 {
        lemma_run_keeps_arguments(f, call, events.drop_last());
    }
}

/// A mismatch aborts: when the balance gained differs from the amount that
/// the message attests, the call is aborted for that reason, and stays so
/// whatever is reported later. No transfer is asked for.
pub proof fn lemma_mismatch_aborts(
    f: ForwarderView,
    call: CallView,
    balance_after: i128,
    later: Seq<Event>,
)
    requires
        call.stage matches StageView::Measuring { balance_before } && decoded(call.message)
            matches Some(m) && balance_after - balance_before != m.message_body.amount,
    ensures
        f.run(call, seq![Event::Balance(balance_after)] + later) == call.at(
            StageView::Aborted(ForwardError::AmountMismatch),
        ),
        f.action(f.run(call, seq![Event::Balance(balance_after)] + later)) == ActionView::Abort(
            ForwardError::AmountMismatch,
        ),
{
    let first = seq![Event::Balance(balance_after)];
    assert(first.drop_last() =~= Seq::<Event>::empty());
    assert(f.run(call, first.drop_last()) == call);
    assert(f.run(call, first) == f.advance(call, Event::Balance(balance_after)));
    lemma_run_split(f, call, first, later);
    lemma_finished_stays(f, f.run(call, first), later);
}

/// Whatever is reported, and in whatever order: a call that has reached the
/// payment pays exactly the amount that its message attests, to the
/// recipient that its hook data names under the forwarder's policy.
pub proof fn lemma_payment_is_attested(
    f: ForwarderView,
    message: Seq<u8>,
    xdr_hook_data: bool,
    attestation: Seq<u8>,
    events: Seq<Event>,
)
    ensures
        f.pays_as_attested(
            f.run(ForwarderView::begin(message, xdr_hook_data, attestation), events),
        ),
    decreases events.len(),
{
    let begun = ForwarderView::begin(message, xdr_hook_data, attestation);
    if events.len() > 0 {
        lemma_payment_is_attested(f, message, xdr_hook_data, attestation, events.drop_last());
        lemma_run_keeps_arguments(f, begun, events.drop_last());
    }
}

/// A forward call whose events come in order: the grant is made only after
/// the first balance is known, the second balance decides between payment and
/// abort as `settle` says, and a payment that the ledger makes completes the
/// call.
pub proof fn lemma_forward_in_order(
    f: ForwarderView,
    message: Seq<u8>,
    xdr_hook_data: bool,
    attestation: Seq<u8>,
    balance_before: i128,
    balance_after: i128,
)
    ensures
        ({
            let begun = ForwarderView::begin(message, xdr_hook_data, attestation);
            let read = Event::Balance(balance_before);
            let measured = Event::Balance(balance_after);
            let outcome = f.settle(message, xdr_hook_data, balance_before, balance_after);
            &&& f.action(begun) == ActionView::ReadBalance { asset: f.asset }
            &&& f.action(f.run(begun, seq![read])) == ActionView::Invoke(f.grant(begun))
            &&& f.action(f.run(begun, seq![read, Event::Minted])) == ActionView::ReadBalance {
                asset: f.asset,
            }
            &&& f.run(begun, seq![read, Event::Minted, measured]) == begun.at(outcome)
            &&& f.run(begun, seq![read, Event::Minted, measured, Event::Transferred]) == begun.at(
                if outcome is Paying {
                    StageView::Completed
                } else {
                    outcome
                },
            )
        }),
{
    let begun = ForwarderView::begin(message, xdr_hook_data, attestation);
    let read = Event::Balance(balance_before);
    let measured = Event::Balance(balance_after);
    let e0 = Seq::<Event>::empty();
    let e1 = seq![read];
    let e2 = seq![read, Event::Minted];
    let e3 = seq![read, Event::Minted, measured];
    let e4 = seq![read, Event::Minted, measured, Event::Transferred];
    assert(e1.drop_last() =~= e0);
    assert(e2.drop_last() =~= e1);
    assert(e3.drop_last() =~= e2);
    assert(e4.drop_last() =~= e3);
    assert(f.run(begun, e0) == begun);
    assert(f.run(begun, e1) == f.advance(f.run(begun, e0), read));
    assert(f.run(begun, e2) == f.advance(f.run(begun, e1), Event::Minted));
    assert(f.run(begun, e3) == f.advance(f.run(begun, e2), measured));
    assert(f.run(begun, e4) == f.advance(f.run(begun, e3), Event::Transferred));
}

} // verus!
