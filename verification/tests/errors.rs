//! The error taxonomy: every variant has a message and a suggestion.

use gi::errors::GiError;
use gi::provider::{provider_factory, GitHub, SupportedProviders};

#[test]
fn every_error_has_a_message_and_a_suggestion() {
    let all = [
        GiError::EnvironmentError,
        GiError::NotARepository,
        GiError::NoCurrentBranch,
        GiError::NoChanges,
        GiError::BackendFailure,
        GiError::CheckoutFailed,
        GiError::DeleteFailed,
        GiError::PushFailed,
        GiError::RefUpdateFailed,
        GiError::BranchNameExhausted,
        GiError::UnrecognizedRemoteUrl,
        GiError::UnsupportedProvider,
        GiError::CorruptMetadata,
        GiError::CredentialError,
        GiError::ForgeRequestFailed,
    ];
    for e in all {
        assert!(!e.message().is_empty(), "{e:?}");
        assert!(!e.suggestion().is_empty(), "{e:?}");
    }
}

#[test]
fn specific_messages_stay_user_facing() {
    assert_eq!(
        GiError::NoChanges.message(),
        "Can't create a new stacked commit without changes in the working area."
    );
    assert_eq!(
        GiError::NoChanges.suggestion(),
        "Make some changes to your files and try again."
    );
    // the unsupported-provider suggestion enumerates the supported set
    assert_eq!(
        GiError::UnsupportedProvider.suggestion(),
        "Supported providers: GitHub. Add a remote that uses one of the currently supported providers."
    );
}

#[test]
fn the_provider_factory_serves_the_known_provider() {
    let marker = provider_factory(&SupportedProviders::GitHub).unwrap();
    assert_eq!(marker, GitHub {});
    assert_eq!(GitHub::new().unwrap(), GitHub {});
}

#[test]
fn cli_commands_carry_over() {
    let args = gi::args::Args { command: gi::args::Commands::Create };
    assert_eq!(args.command, gi::args::Commands::Create);
    assert_ne!(gi::args::Commands::Create, gi::args::Commands::Submit);
}
