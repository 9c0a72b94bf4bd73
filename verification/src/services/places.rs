//! Where the operating system keeps an application's files.

use vstd::prelude::*;

verus! {

/// `directories::ProjectDirs::from`, then `data_local_dir`: the directory for an
/// application's local data, `None` where the user has no home directory. The place
/// depends on the machine and the user and is not stated.
#[verifier::external_body]
fn ask_local_data_dir(qualifier: &str, organization: &str, application: &str) -> (r: Option<
    String,
>) {
    directories::ProjectDirs::from(qualifier, organization, application)
        .map(|dirs| dirs.data_local_dir().to_string_lossy().into_owned())
}

/// `answer` is what `directories::ProjectDirs` gave as the directory for the local data
/// of the application with these names.
pub closed spec fn is_local_data_dir(
    qualifier: &str,
    organization: &str,
    application: &str,
    answer: Option<String>,
) -> bool {
    call_ensures(ask_local_data_dir, (qualifier, organization, application), answer)
}

/// The directory for the local data of the application with these names.
pub(crate) fn local_data_dir(qualifier: &str, organization: &str, application: &str) -> (r: Option<
    String,
>)
    ensures
        is_local_data_dir(qualifier, organization, application, r),
{
    let ask = ask_local_data_dir;
    ask(qualifier, organization, application)
}

/// `directories::ProjectDirs::from`, then `config_dir`: the directory for an
/// application's configuration, `None` where the user has no home directory. The
/// place depends on the machine and the user and is not stated.
#[verifier::external_body]
fn ask_configuration_dir(qualifier: &str, organization: &str, application: &str) -> (r: Option<
    String,
>) {
    directories::ProjectDirs::from(qualifier, organization, application)
        .map(|dirs| dirs.config_dir().to_string_lossy().into_owned())
}

/// `answer` is what `directories::ProjectDirs` gave as the directory for the
/// configuration of the application with these names.
pub closed spec fn is_configuration_dir(
    qualifier: &str,
    organization: &str,
    application: &str,
    answer: Option<String>,
) -> bool {
    call_ensures(ask_configuration_dir, (qualifier, organization, application), answer)
}

/// The directory for the configuration of the application with these names.
pub(crate) fn configuration_dir(qualifier: &str, organization: &str, application: &str) -> (r:
    Option<String>)
    ensures
        is_configuration_dir(qualifier, organization, application, r),
{
    let ask = ask_configuration_dir;
    ask(qualifier, organization, application)
}

} // verus!
