//! Where everything lies, name by name.
use vstd::prelude::*;
use vstd::utf8::encode_utf8;

use crate::bytes::decimal;
use crate::durable_registry_sqlite_custody::database_path_below;
use crate::environment::HostEnvironment;
use crate::outside::Place;
use crate::paths::{is_absolute_path, joined, path_view, resolved_root, HostRoots};
use crate::transport_identity_provisioning::{ciphertext_path_below, dropin_path_below};

verus! {

/// A path is absolute exactly when it begins with a slash.
pub proof fn absolute_path_begins_with_a_slash(path: Seq<u8>)
    ensures
        is_absolute_path(path) <==> path.len() > 0 && path[0] == 47,
{
}

/// What lies below a directory has the directory's path, a slash, and its own name. A slash that is
/// there already is not doubled.
pub proof fn joined_path_has_one_slash(directory: Seq<u8>, below: Seq<u8>)
    ensures
        directory.len() == 0 ==> joined(directory, below) == below,
        directory.len() > 0 && directory.last() == 47 ==> joined(directory, below) == directory
            + below,
        directory.len() > 0 && directory.last() != 47 ==> joined(directory, below) == directory
            + seq![47u8] + below,
{
    assert(Seq::<u8>::empty() + below =~= below);
    if directory.len() == 0 {
        assert(directory =~= Seq::<u8>::empty());
    }
    assert(directory.push(47u8) + below =~= directory + seq![47u8] + below);
}

/// A root is what its own variable says, which has to be absolute. Only without that variable it lies
/// below the home directory, which then has to be absolute.
pub proof fn root_is_resolved_from_its_variable(
    own: Option<Seq<u8>>,
    home: Option<Seq<u8>>,
    suffix: Seq<char>,
)
    ensures
        own matches Some(value) ==> resolved_root(own, home, suffix) == (if value.len() > 0
            && value[0] == 47 {
            Some(value)
        } else {
            None
        }),
        own is None && home is None ==> resolved_root(own, home, suffix) is None,
        own is None ==> (home matches Some(value) ==> resolved_root(own, home, suffix) == (
        if value.len() > 0 && value[0] == 47 {
            Some(joined(value, encode_utf8(suffix)))
        } else {
            None
        })),
{
}

/// The state root comes from `XDG_STATE_HOME` or lies at `.local/state`, and the configuration root
/// comes from `XDG_CONFIG_HOME` or lies at `.config`.
pub proof fn roots_have_their_own_variables(environment: HostEnvironment)
    ensures
        environment.state_root_path() == resolved_root(
            path_view(environment.xdg_state_home),
            path_view(environment.home),
            ".local/state"@,
        ),
        environment.config_root_path() == resolved_root(
            path_view(environment.xdg_config_home),
            path_view(environment.home),
            ".config"@,
        ),
{
}

/// Every place below the state root.
pub proof fn state_lies_below_the_state_root(roots: HostRoots)
    ensures
        roots.path_of(Place::StateRoot) == roots.state_root@,
        roots.path_of(Place::ApplicationDirectory) == joined(
            roots.state_root@,
            encode_utf8("private-remote-workspace"@),
        ),
        roots.path_of(Place::SetupDirectory) == joined(
            roots.state_root@,
            encode_utf8("private-remote-workspace/setup"@),
        ),
        roots.path_of(Place::IntentRecord) == joined(
            roots.state_root@,
            encode_utf8(
                "private-remote-workspace/setup/owner-first-run-transport-custody-intent-v1"@,
            ),
        ),
        roots.path_of(Place::BootstrapDirectory) == joined(
            roots.state_root@,
            encode_utf8("private-remote-workspace/bootstrap"@),
        ),
        roots.path_of(Place::IdentityRecord) == joined(
            roots.state_root@,
            encode_utf8("private-remote-workspace/bootstrap/owner-logical-identity-v1.bin"@),
        ),
        roots.path_of(Place::DatabaseDirectory) == joined(
            roots.state_root@,
            encode_utf8("private-remote-workspace/database"@),
        ),
        roots.path_of(Place::Database) == joined(
            roots.state_root@,
            encode_utf8("private-remote-workspace/database/prw-authority-v1.sqlite3"@),
        ),
        roots.path_of(Place::Database) == database_path_below(roots.state_root@),
        roots.path_of(Place::CredentialDirectory) == joined(
            roots.state_root@,
            encode_utf8("private-remote-workspace/credentials"@),
        ),
        roots.path_of(Place::Ciphertext) == joined(
            roots.state_root@,
            encode_utf8(
                "private-remote-workspace/credentials/transport-identity-private-key-v1.cred"@,
            ),
        ),
        roots.path_of(Place::Ciphertext) == ciphertext_path_below(roots.state_root@),
{
}

/// Every place below the configuration root.
pub proof fn binding_lies_below_the_configuration_root(roots: HostRoots)
    ensures
        roots.path_of(Place::ConfigRoot) == roots.config_root@,
        roots.path_of(Place::SystemdDirectory) == joined(
            roots.config_root@,
            encode_utf8("systemd"@),
        ),
        roots.path_of(Place::SystemdUserDirectory) == joined(
            roots.config_root@,
            encode_utf8("systemd/user"@),
        ),
        roots.path_of(Place::DropinDirectory) == joined(
            roots.config_root@,
            encode_utf8("systemd/user/prw-agent.service.d"@),
        ),
        roots.path_of(Place::Dropin) == joined(
            roots.config_root@,
            encode_utf8("systemd/user/prw-agent.service.d/30-transport-identity-credential.conf"@),
        ),
        roots.path_of(Place::Dropin) == dropin_path_below(roots.config_root@),
{
}

/// The helpers, the host secret and the runtime credential.
pub proof fn helpers_lie_in_the_system(roots: HostRoots)
    ensures
        roots.path_of(Place::SystemdCreds) == encode_utf8("/usr/bin/systemd-creds"@),
        roots.path_of(Place::SystemdAnalyze) == encode_utf8("/usr/bin/systemd-analyze"@),
        roots.path_of(Place::HostSecret) == encode_utf8("/var/lib/systemd/credential.secret"@),
        roots.path_of(Place::RuntimeCredentialDirectory) == roots.runtime_credentials@,
        roots.path_of(Place::RuntimeCredential) == joined(
            roots.runtime_credentials@,
            encode_utf8("prw.transport-identity.private-key.v1"@),
        ),
{
    joined_path_has_one_slash(Seq::empty(), encode_utf8("/usr/bin/systemd-creds"@));
    joined_path_has_one_slash(Seq::empty(), encode_utf8("/usr/bin/systemd-analyze"@));
    joined_path_has_one_slash(Seq::empty(), encode_utf8("/var/lib/systemd/credential.secret"@));
}

/// A temporary file lies beside its record, under a name of its own for each process.
pub proof fn temporary_files_lie_beside_their_records(roots: HostRoots)
    ensures
        ({
            let process = decimal(roots.process_id as nat) + ".tmp"@;
            &&& roots.path_of(Place::IntentTemporary) == joined(
                roots.state_root@,
                encode_utf8(
                    "private-remote-workspace/setup/.owner-first-run-transport-custody-intent-v1.c03e-zg."@
                        + process,
                ),
            )
            &&& roots.path_of(Place::IdentityTemporary) == joined(
                roots.state_root@,
                encode_utf8(
                    "private-remote-workspace/bootstrap/.owner-logical-identity-v1.bin.c03e-yq."@
                        + process,
                ),
            )
            &&& roots.path_of(Place::CiphertextTemporary) == joined(
                roots.state_root@,
                encode_utf8(
                    "private-remote-workspace/credentials/.transport-identity-private-key-v1.cred.c03e-ys."@
                        + process,
                ),
            )
            &&& roots.path_of(Place::DropinTemporary) == joined(
                roots.config_root@,
                encode_utf8(
                    "systemd/user/prw-agent.service.d/.30-transport-identity-credential.conf."@
                        + process,
                ),
            )
        }),
{
    let number = decimal(roots.process_id as nat);
    lemma_grouping(
        "private-remote-workspace/setup/.owner-first-run-transport-custody-intent-v1.c03e-zg."@,
        number,
        ".tmp"@,
    );
    lemma_grouping(
        "private-remote-workspace/bootstrap/.owner-logical-identity-v1.bin.c03e-yq."@,
        number,
        ".tmp"@,
    );
    lemma_grouping(
        "private-remote-workspace/credentials/.transport-identity-private-key-v1.cred.c03e-ys."@,
        number,
        ".tmp"@,
    );
    lemma_grouping(
        "systemd/user/prw-agent.service.d/.30-transport-identity-credential.conf."@,
        number,
        ".tmp"@,
    );
}

proof fn lemma_grouping(one: Seq<char>, two: Seq<char>, three: Seq<char>)
    ensures
        one + two + three == one + (two + three),
{
    assert(one + two + three =~= one + (two + three));
}

/// The decimal digits of a number: its last digit stands last, and the others are those of the tenth
/// part.
pub proof fn decimal_digits_stand_in_order(value: nat)
    ensures
        decimal(0) == seq!['0'],
        decimal(value).len() > 0,
        decimal(value).last() as int == 48 + value % 10,
        value >= 10 ==> decimal(value).drop_last() == decimal(value / 10),
        value < 10 ==> decimal(value).len() == 1,
    decreases value,
{
    assert(decimal(0) =~= seq!['0']);
    if value >= 10 {
        decimal_digits_stand_in_order(value / 10);
        assert(decimal(value).drop_last() =~= decimal(value / 10));
    }
}

} // verus!
