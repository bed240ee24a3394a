//! The argument lists of the helper programs.
use vstd::prelude::*;
use vstd::string::*;
use vstd::utf8::*;

use crate::bytes::{append_bytes, copy_bytes};
use crate::transport_identity_custody::SYSTEMD_TRANSPORT_IDENTITY_CREDENTIAL_NAME;

verus! {

/// What a list of arguments says.
pub open spec fn argument_views(arguments: Seq<Vec<u8>>) -> Seq<Seq<u8>> {
    arguments.map_values(|argument: Vec<u8>| argument@)
}

/// The argument that names the credential.
pub open spec fn name_argument() -> Seq<u8> {
    encode_utf8("--name="@) + encode_utf8(SYSTEMD_TRANSPORT_IDENTITY_CREDENTIAL_NAME@)
}

/// Adds one argument to the list.
fn add_argument(arguments: &mut Vec<Vec<u8>>, argument: &str)
    ensures
        argument_views(final(arguments)@) == argument_views(old(arguments)@).push(
            encode_utf8(argument@),
        ),
{
    arguments.push(copy_bytes(argument.as_bytes()));
    assert(argument_views(arguments@) =~= argument_views(old(arguments)@).push(
        encode_utf8(argument@),
    ));
}

/// Adds the argument that names the credential to the list.
fn add_name(arguments: &mut Vec<Vec<u8>>)
    ensures
        argument_views(final(arguments)@) == argument_views(old(arguments)@).push(name_argument()),
{
    let mut name = copy_bytes("--name=".as_bytes());
    append_bytes(&mut name, SYSTEMD_TRANSPORT_IDENTITY_CREDENTIAL_NAME.as_bytes());
    arguments.push(name);
    assert(argument_views(arguments@) =~= argument_views(old(arguments)@).push(name_argument()));
}

/// The arguments with which `systemd-creds` encrypts its standard input to a file. The host key
/// alone is used exactly when this is asked for; otherwise the helper's default holds.
pub fn encryption_arguments(host_key_only: bool, target: &[u8]) -> (arguments: Vec<Vec<u8>>)
    ensures
        argument_views(arguments@) == (if host_key_only {
            seq![
                encode_utf8("--user"@),
                encode_utf8("-H"@),
                encode_utf8("encrypt"@),
                name_argument(),
                encode_utf8("-"@),
                target@,
            ]
        } else {
            seq![
                encode_utf8("--user"@),
                encode_utf8("encrypt"@),
                name_argument(),
                encode_utf8("-"@),
                target@,
            ]
        }),
{
    let mut arguments: Vec<Vec<u8>> = Vec::new();
    assert(argument_views(arguments@) =~= seq![]);
    add_argument(&mut arguments, "--user");
    if host_key_only {
        add_argument(&mut arguments, "-H");
    }
    add_argument(&mut arguments, "encrypt");
    add_name(&mut arguments);
    add_argument(&mut arguments, "-");
    let ghost before = arguments@;
    arguments.push(copy_bytes(target));
    assert(argument_views(arguments@) =~= argument_views(before).push(target@));
    arguments
}

/// The arguments with which `systemd-creds` decrypts its standard input to its standard output.
pub fn decryption_arguments() -> (arguments: Vec<Vec<u8>>)
    ensures
        argument_views(arguments@) == seq![
            encode_utf8("--user"@),
            name_argument(),
            encode_utf8("decrypt"@),
            encode_utf8("-"@),
            encode_utf8("-"@),
        ],
{
    let mut arguments: Vec<Vec<u8>> = Vec::new();
    assert(argument_views(arguments@) =~= seq![]);
    add_argument(&mut arguments, "--user");
    add_name(&mut arguments);
    add_argument(&mut arguments, "decrypt");
    add_argument(&mut arguments, "-");
    add_argument(&mut arguments, "-");
    arguments
}

/// The arguments with which `systemd-analyze` tells whether a TPM2 can be used.
pub fn tpm2_query_arguments() -> (arguments: Vec<Vec<u8>>)
    ensures
        argument_views(arguments@) == seq![encode_utf8("has-tpm2"@)],
{
    let mut arguments: Vec<Vec<u8>> = Vec::new();
    assert(argument_views(arguments@) =~= seq![]);
    add_argument(&mut arguments, "has-tpm2");
    arguments
}

} // verus!
