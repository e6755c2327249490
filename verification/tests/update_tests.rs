use amareleo_chain::app_args::{key_command, KeyCommand};
use amareleo_chain::chain_errors::ChainErrors;
use amareleo_chain::update::{Update, UpdateEvent, UpdateStatus};

fn update_cmd(list: bool, quiet: bool) -> Update {
    Update { list, quiet, version: None }
}

#[test]
fn listing_is_shown_verbatim() {
    let out = update_cmd(true, false).parse(UpdateEvent::Listed(Ok("1.0.0\n1.1.0".to_string())));
    assert_eq!(out, "1.0.0\n1.1.0");
}

#[test]
fn listing_failure_is_framed() {
    let out = update_cmd(true, false).parse(UpdateEvent::Listed(Err("no network".to_string())));
    assert_eq!(
        out,
        "Failed to list the available versions of snarkOS-lite\nno network\n"
    );
}

#[test]
fn quiet_update_says_nothing() {
    let out = update_cmd(false, true).parse(
        UpdateEvent::Upgraded(Ok(UpdateStatus::Updated("2.0.0".to_string()))),
    );
    assert_eq!(out, "");
}

#[test]
fn up_to_date_is_reported() {
    let out = update_cmd(false, false).parse(
        UpdateEvent::Upgraded(Ok(UpdateStatus::UpToDate("2.0.0".to_string()))),
    );
    assert_eq!(out, "\nsnarkOS-lite is already on the latest version");
}

#[test]
fn new_version_is_reported() {
    let out = update_cmd(false, false).parse(
        UpdateEvent::Upgraded(Ok(UpdateStatus::Updated("2.1.3".to_string()))),
    );
    assert_eq!(out, "\nsnarkOS-lite has updated to version 2.1.3");
}

#[test]
fn update_failure_is_reported() {
    let out = update_cmd(false, false).parse(
        UpdateEvent::Upgraded(Err("denied".to_string())),
    );
    assert_eq!(
        out,
        "\nFailed to update snarkOS-lite to the latest version\ndenied\n"
    );
}

#[test]
fn keys_map_to_commands() {
    assert_eq!(key_command('q'), KeyCommand::Quit);
    assert_eq!(key_command('s'), KeyCommand::Silent);
    assert_eq!(key_command('0'), KeyCommand::Show(0));
    assert_eq!(key_command('7'), KeyCommand::Show(7));
    assert_eq!(key_command('9'), KeyCommand::Show(9));
    assert_eq!(key_command('x'), KeyCommand::Ignore);
    assert_eq!(key_command(' '), KeyCommand::Ignore);
}

#[test]
fn errors_describe_themselves() {
    assert_eq!(
        ChainErrors::ProcessNotRunning.describe(),
        "snarkos was not started"
    );
    assert_eq!(
        ChainErrors::CannotFindReady.describe(),
        "Cannot find process ready phrase"
    );
}
