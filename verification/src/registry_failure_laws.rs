//! What the registry's operations come to when the database fails: a change whose outcome is not
//! known is never reported as anything else.
use vstd::prelude::*;

use crate::domain::{BindingView, DeviceLifecycle, TransportIdentity};
use crate::durable_registry_authority::DurableRegistryAuthorityError;
use crate::durable_registry_codec::{encoded_device, encoded_membership};
use crate::durable_registry_mutation_semantics::{
    changed_device, changed_membership, DeviceChange, MembershipChange,
};
use crate::durable_registry_sqlite_store::{
    add_membership_plan, bootstrap_plan, current_transport_plan, decoded_device,
    decoded_membership, load_device_plan, load_membership_plan, register_device_plan,
    update_device_plan, update_membership_plan, validate_session_plan,
    OwnerPcLocalAuthorityBootstrapOutcome, RegistryReply, RegistryRequest,
};
use crate::plan::{follow, lemma_follow_bind, Progress};
use crate::registry::{
    DeviceView, MembershipLifecycle, MembershipView, PrincipalView, SessionView, WorkspaceRole,
};
use crate::registry_opening_laws::Reply;

verus! {

pub type Course<R> = Progress<
    RegistryRequest<Seq<char>, Seq<u8>>,
    Result<R, DurableRegistryAuthorityError>,
>;

/// What a change of one row comes to, by the replies to the write and to the commit.
pub open spec fn written(
    write: Reply,
    commit: Reply,
    unexpected: DurableRegistryAuthorityError,
) -> Course<()> {
    match write {
        RegistryReply::Changed(rows) => if rows != 1 {
            Progress::Done(Err(unexpected))
        } else if commit is Completed {
            Progress::Done(Ok(()))
        } else {
            Progress::Done(Err(DurableRegistryAuthorityError::MutationIndeterminate))
        },
        _ => Progress::Done(Err(DurableRegistryAuthorityError::MutationIndeterminate)),
    }
}

proof fn lemma_four(one: Reply, two: Reply, three: Reply, four: Reply)
    ensures
        seq![one, two, three, four].drop_first() == seq![two, three, four],
        seq![two, three, four].drop_first() == seq![three, four],
        seq![three, four].drop_first() == seq![four],
        seq![four].drop_first() == Seq::<Reply>::empty(),
{
    assert(seq![one, two, three, four].drop_first() =~= seq![two, three, four]);
    assert(seq![two, three, four].drop_first() =~= seq![three, four]);
    assert(seq![three, four].drop_first() =~= seq![four]);
    assert(seq![four].drop_first() =~= Seq::<Reply>::empty());
}

proof fn lemma_two(one: Reply, two: Reply)
    ensures
        seq![one, two].drop_first() == seq![two],
        seq![two].drop_first() == Seq::<Reply>::empty(),
        seq![one].drop_first() == Seq::<Reply>::empty(),
{
    assert(seq![one, two].drop_first() =~= seq![two]);
    assert(seq![two].drop_first() =~= Seq::<Reply>::empty());
    assert(seq![one].drop_first() =~= Seq::<Reply>::empty());
}

/// Reading a record that cannot be read is an unavailable read, never the absence of a record.
pub proof fn failed_read_is_unavailable(
    workspace: Seq<char>,
    user: Seq<char>,
    device: Seq<char>,
    reply: Reply,
)
    requires
        !(reply is Row),
    ensures
        follow(load_membership_plan(workspace, user), seq![reply]).0 == Course::<Option<MembershipView>>::Done(Err(DurableRegistryAuthorityError::ReadUnavailable)),
        follow(load_device_plan(device), seq![reply]).0 == Course::<Option<DeviceView>>::Done(Err(DurableRegistryAuthorityError::ReadUnavailable)),
        follow(current_transport_plan(device), seq![reply]).0 == Course::<TransportIdentity>::Done(Err(DurableRegistryAuthorityError::ReadUnavailable)),
{
    broadcast use lemma_follow_bind;

    reveal_with_fuel(follow, 3);
    lemma_two(reply, reply);
}

/// A session is read in one transaction. Where that cannot begin, or a record cannot be read, the
/// session cannot be validated for want of reading.
pub proof fn session_needs_its_reads(
    session: SessionView,
    presented: TransportIdentity,
    begin: Reply,
    read: Reply,
)
    ensures
        follow(validate_session_plan(session, presented), Seq::empty()).0 == Course::<PrincipalView>::Waiting(RegistryRequest::BeginDeferred),
        !(begin is Completed) ==> follow(validate_session_plan(session, presented), seq![begin]).0
            == Course::<PrincipalView>::Done(Err(DurableRegistryAuthorityError::ReadUnavailable)),
        begin is Completed && !(read is Row) ==> follow(
            validate_session_plan(session, presented),
            seq![begin, read],
        ).0 == Course::<PrincipalView>::Done(Err(DurableRegistryAuthorityError::ReadUnavailable)),
{
    broadcast use lemma_follow_bind;

    reveal_with_fuel(follow, 3);
    lemma_two(begin, read);
}

/// A change begins with a transaction that may write. Where that cannot begin the outcome is not
/// known, and where the record cannot be read the read is unavailable.
pub proof fn change_needs_its_transaction(
    membership: MembershipView,
    binding: BindingView,
    identity: TransportIdentity,
    change: MembershipChange,
    device_change: DeviceChange,
    begin: Reply,
    read: Reply,
)
    requires
        binding.lifecycle == DeviceLifecycle::Enrolled,
    ensures
        ({
            let add = add_membership_plan(membership);
            let alter = update_membership_plan(membership.workspace, membership.user, change);
            let alter_device = update_device_plan(binding.device, device_change);
            let register = register_device_plan(binding);
            let bootstrap = bootstrap_plan(binding, identity);
            let unknown = Course::<()>::Done(
                Err(DurableRegistryAuthorityError::MutationIndeterminate),
            );
            let unavailable = Course::<()>::Done(
                Err(DurableRegistryAuthorityError::ReadUnavailable),
            );
            &&& follow(add, Seq::empty()).0 == Course::<()>::Waiting(
                RegistryRequest::BeginImmediate,
            )
            &&& follow(alter, Seq::empty()).0 == Course::<()>::Waiting(
                RegistryRequest::BeginImmediate,
            )
            &&& follow(alter_device, Seq::empty()).0 == Course::<()>::Waiting(
                RegistryRequest::BeginImmediate,
            )
            &&& follow(register, Seq::empty()).0 == Course::<()>::Waiting(
                RegistryRequest::BeginImmediate,
            )
            &&& follow(bootstrap, Seq::empty()).0 == Course::<
                OwnerPcLocalAuthorityBootstrapOutcome,
            >::Waiting(RegistryRequest::BeginImmediate)
            &&& !(begin is Completed) ==> {
                &&& follow(add, seq![begin]).0 == unknown
                &&& follow(alter, seq![begin]).0 == unknown
                &&& follow(alter_device, seq![begin]).0 == unknown
                &&& follow(register, seq![begin]).0 == unknown
                &&& follow(bootstrap, seq![begin]).0 == Course::<
                    OwnerPcLocalAuthorityBootstrapOutcome,
                >::Done(Err(DurableRegistryAuthorityError::MutationIndeterminate))
            }
            &&& begin is Completed && !(read is Row) ==> {
                &&& follow(add, seq![begin, read]).0 == unavailable
                &&& follow(alter, seq![begin, read]).0 == unavailable
                &&& follow(alter_device, seq![begin, read]).0 == unavailable
                &&& follow(register, seq![begin, read]).0 == unavailable
                &&& follow(bootstrap, seq![begin, read]).0 == Course::<
                    OwnerPcLocalAuthorityBootstrapOutcome,
                >::Done(Err(DurableRegistryAuthorityError::ReadUnavailable))
            }
        }),
{
    broadcast use lemma_follow_bind;

    reveal_with_fuel(follow, 3);
    lemma_two(begin, read);
}

/// Adding a membership where there is none writes one row and commits it. A write of another number
/// of rows is invalid, and one that fails, as well as a commit that fails, leaves the outcome unknown.
pub proof fn addition_reports_its_write(membership: MembershipView, write: Reply, commit: Reply)
    requires
        encoded_membership(membership) is Some,
    ensures
        follow(
            add_membership_plan(membership),
            seq![Reply::Completed, Reply::Row(None), write, commit],
        ).0 == written(write, commit, DurableRegistryAuthorityError::InvalidAuthority),
{
    broadcast use lemma_follow_bind;

    reveal_with_fuel(follow, 3);
    lemma_four(Reply::Completed, Reply::Row(None), write, commit);
}

/// Changing a membership writes one row and commits it. A write of another number of rows is a
/// conflict, and one that fails, as well as a commit that fails, leaves the outcome unknown.
pub proof fn membership_change_reports_its_write(
    workspace: Seq<char>,
    user: Seq<char>,
    change: MembershipChange,
    record: Seq<u8>,
    write: Reply,
    commit: Reply,
)
    requires
        decoded_membership(record, workspace, user) matches Some(current) && (changed_membership(
            current,
            change,
        ) matches Ok(successor) && encoded_membership(successor) is Some),
    ensures
        follow(
            update_membership_plan(workspace, user, change),
            seq![Reply::Completed, Reply::Row(Some(record)), write, commit],
        ).0 == written(write, commit, DurableRegistryAuthorityError::CurrentnessConflict),
{
    broadcast use lemma_follow_bind;

    reveal_with_fuel(follow, 3);
    lemma_four(Reply::Completed, Reply::Row(Some(record)), write, commit);
}

/// Changing a device likewise.
pub proof fn device_change_reports_its_write(
    device: Seq<char>,
    change: DeviceChange,
    record: Seq<u8>,
    write: Reply,
    commit: Reply,
)
    requires
        decoded_device(record, device) matches Some(current) && (changed_device(current, change)
            matches Ok(successor) && encoded_device(successor) is Some),
    ensures
        follow(
            update_device_plan(device, change),
            seq![Reply::Completed, Reply::Row(Some(record)), write, commit],
        ).0 == written(write, commit, DurableRegistryAuthorityError::CurrentnessConflict),
{
    broadcast use lemma_follow_bind;

    reveal_with_fuel(follow, 3);
    lemma_four(Reply::Completed, Reply::Row(Some(record)), write, commit);
}

/// Registering a device under an active membership writes one row and commits it, and reports a
/// failure as adding a membership does.
pub proof fn registration_reports_its_write(
    binding: BindingView,
    record: Seq<u8>,
    write: Reply,
    commit: Reply,
)
    requires
        binding.lifecycle == DeviceLifecycle::Enrolled,
        decoded_membership(record, binding.workspace, binding.user) matches Some(member)
            && member.lifecycle == MembershipLifecycle::Active,
        encoded_device(DeviceView { binding, transport_identity: None }) is Some,
    ensures
        follow(
            register_device_plan(binding),
            seq![Reply::Completed, Reply::Row(Some(record)), Reply::Row(None), write, commit],
        ).0 == written(write, commit, DurableRegistryAuthorityError::InvalidAuthority),
{
    broadcast use lemma_follow_bind;

    reveal_with_fuel(follow, 3);
    let all = seq![Reply::Completed, Reply::Row(Some(record)), Reply::Row(None), write, commit];
    assert(all.drop_first() =~= seq![Reply::Row(Some(record)), Reply::Row(None), write, commit]);
    lemma_four(Reply::Row(Some(record)), Reply::Row(None), write, commit);
}

/// Bootstrapping an empty authority writes both rows and commits them together. It is initialized
/// exactly when both writes changed one row and the commit succeeded.
pub proof fn bootstrap_reports_its_writes(
    binding: BindingView,
    identity: TransportIdentity,
    membership_write: Reply,
    device_write: Reply,
    commit: Reply,
)
    requires
        binding.lifecycle == DeviceLifecycle::Enrolled,
        encoded_membership(
            (MembershipView {
                workspace: binding.workspace,
                user: binding.user,
                role: WorkspaceRole::Owner,
                lifecycle: MembershipLifecycle::Active,
            }),
        ) is Some,
        encoded_device((DeviceView { binding, transport_identity: Some(identity) })) is Some,
    ensures
        follow(
            bootstrap_plan(binding, identity),
            seq![
                Reply::Completed,
                Reply::Row(None),
                Reply::Row(None),
                membership_write,
                device_write,
                commit,
            ],
        ).0 == Course::<OwnerPcLocalAuthorityBootstrapOutcome>::Done(
            match (membership_write, device_write) {
                (RegistryReply::Changed(one), RegistryReply::Changed(two)) => if one != 1 || two
                    != 1 {
                    Err(DurableRegistryAuthorityError::InvalidAuthority)
                } else if commit is Completed {
                    Ok(OwnerPcLocalAuthorityBootstrapOutcome::Initialized)
                } else {
                    Err(DurableRegistryAuthorityError::MutationIndeterminate)
                },
                _ => Err(DurableRegistryAuthorityError::MutationIndeterminate),
            },
        ),
{
    broadcast use lemma_follow_bind;

    reveal_with_fuel(follow, 3);
    let all = seq![
        Reply::Completed,
        Reply::Row(None),
        Reply::Row(None),
        membership_write,
        device_write,
        commit,
    ];
    assert(all.drop_first() =~= seq![
        Reply::Row(None),
        Reply::Row(None),
        membership_write,
        device_write,
        commit,
    ]);
    assert(all.drop_first().drop_first() =~= seq![
        Reply::Row(None),
        membership_write,
        device_write,
        commit,
    ]);
    lemma_four(Reply::Row(None), membership_write, device_write, commit);
}

} // verus!
