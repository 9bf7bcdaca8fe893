//! The configuration of the Plugin.
use crate::failure::RuntimeFailure;
use crate::schema;
use crate::schema::valid_schema_name;
use crate::validate;
use crate::validate::{valid_callers, valid_id, valid_secret_reference};
use vstd::prelude::*;

verus! {

/// Which schema the Plugin owns, how it reaches its database, whom it believes, and who may call it.
#[derive(Clone, Debug, PartialEq, Eq)]
pub struct ProjectsConfig {
    pub schema: String,
    pub database_url_secret: String,
    pub auth_issuer: String,
    pub auth_assertion_public_key: String,
    pub project_callers: Vec<String>,
    pub admin_callers: Vec<String>,
    pub governance_callers: Vec<String>,
}

/// Why a configuration is refused.
#[derive(Clone, Copy, Debug, PartialEq, Eq, Structural)]
pub enum ProjectsConfigError {
    InvalidSchema,
    InvalidSecretReference,
    InvalidAuthIssuer,
    InvalidAuthPublicKey,
    InvalidProjectCallers,
    InvalidAdminCallers,
    InvalidGovernanceCallers,
}

/// What a refusal says.
pub open spec fn config_error_text(error: ProjectsConfigError) -> Seq<char> {
    match error {
        ProjectsConfigError::InvalidSchema => "invalid owned PostgreSQL schema"@,
        ProjectsConfigError::InvalidSecretReference => "invalid database URL secret reference"@,
        ProjectsConfigError::InvalidAuthIssuer => "invalid Auth issuer"@,
        ProjectsConfigError::InvalidAuthPublicKey => "invalid Auth assertion public key"@,
        ProjectsConfigError::InvalidProjectCallers => "project_callers must contain 1 to 64 unique Instance keys"@,
        ProjectsConfigError::InvalidAdminCallers => "admin_callers must contain 1 to 64 unique Instance keys"@,
        ProjectsConfigError::InvalidGovernanceCallers => "governance_callers must contain 1 to 64 unique Instance keys"@,
    }
}

impl ProjectsConfigError {
    /// What the refusal says.
    pub fn message(self) -> (message: &'static str)
        ensures
            message@ == config_error_text(self),
    {
        match self {
            ProjectsConfigError::InvalidSchema => "invalid owned PostgreSQL schema",
            ProjectsConfigError::InvalidSecretReference => "invalid database URL secret reference",
            ProjectsConfigError::InvalidAuthIssuer => "invalid Auth issuer",
            ProjectsConfigError::InvalidAuthPublicKey => "invalid Auth assertion public key",
            ProjectsConfigError::InvalidProjectCallers => "project_callers must contain 1 to 64 unique Instance keys",
            ProjectsConfigError::InvalidAdminCallers => "admin_callers must contain 1 to 64 unique Instance keys",
            ProjectsConfigError::InvalidGovernanceCallers => "governance_callers must contain 1 to 64 unique Instance keys",
        }
    }
}

/// Whether `ActorAssertionVerifier::from_public_key_base64` accepts a public key.
pub uninterp spec fn is_verification_key(key: Seq<char>) -> bool;

/// Calls `lenso_auth_sdk::ActorAssertionVerifier::from_public_key_base64`. Whether it succeeds
/// depends on the key alone: it must be the unpadded URL-safe base64 form of an Ed25519 public key.
#[verifier::external_body]
fn accepts_key(issuer: &str, key: &str) -> (accepted: bool)
    ensures
        accepted == is_verification_key(key@),
{
    lenso_auth_sdk::ActorAssertionVerifier::from_public_key_base64(issuer.to_owned(), key).is_ok()
}

/// What is wrong with a configuration, given whether its public key is accepted. Of several faults
/// the first in the order of the fields counts.
pub open spec fn config_fault(config: ProjectsConfig, key_accepted: bool) -> Option<ProjectsConfigError> {
    if !schema::is_schema_name(config.schema@) {
        Some(ProjectsConfigError::InvalidSchema)
    } else if !validate::is_secret_reference(config.database_url_secret@) {
        Some(ProjectsConfigError::InvalidSecretReference)
    } else if !validate::is_id(config.auth_issuer@) {
        Some(ProjectsConfigError::InvalidAuthIssuer)
    } else if !key_accepted {
        Some(ProjectsConfigError::InvalidAuthPublicKey)
    } else if !validate::are_callers(config.project_callers@) {
        Some(ProjectsConfigError::InvalidProjectCallers)
    } else if !validate::are_callers(config.admin_callers@) {
        Some(ProjectsConfigError::InvalidAdminCallers)
    } else if !validate::are_callers(config.governance_callers@) {
        Some(ProjectsConfigError::InvalidGovernanceCallers)
    } else {
        None
    }
}

/// What the configuration answers for a fault.
pub open spec fn fault_result(fault: Option<ProjectsConfigError>) -> Result<(), ProjectsConfigError> {
    match fault {
        Some(error) => Err(error),
        None => Ok(()),
    }
}

impl ProjectsConfig {
    /// A configuration with these settings, if they are valid.
    pub fn new(
        schema: &str,
        database_url_secret: &str,
        auth_issuer: &str,
        auth_assertion_public_key: &str,
        project_callers: Vec<String>,
        admin_callers: Vec<String>,
        governance_callers: Vec<String>,
    ) -> (result: Result<ProjectsConfig, ProjectsConfigError>)
        ensures
            match result {
                Ok(config) => {
                    &&& config.schema@ == schema@
                    &&& config.database_url_secret@ == database_url_secret@
                    &&& config.auth_issuer@ == auth_issuer@
                    &&& config.auth_assertion_public_key@ == auth_assertion_public_key@
                    &&& config.project_callers == project_callers
                    &&& config.admin_callers == admin_callers
                    &&& config.governance_callers == governance_callers
                    &&& config_fault(
                        config,
                        is_verification_key(auth_assertion_public_key@),
                    ) is None
                },
                Err(error) => exists|config: ProjectsConfig|
                    {
                        &&& config.schema@ == schema@
                        &&& config.database_url_secret@ == database_url_secret@
                        &&& config.auth_issuer@ == auth_issuer@
                        &&& config.auth_assertion_public_key@ == auth_assertion_public_key@
                        &&& config.project_callers == project_callers
                        &&& config.admin_callers == admin_callers
                        &&& config.governance_callers == governance_callers
                        &&& #[trigger] config_fault(
                            config,
                            is_verification_key(auth_assertion_public_key@),
                        ) == Some(error)
                    },
            },
    {
        let value = ProjectsConfig {
            schema: schema.to_owned(),
            database_url_secret: database_url_secret.to_owned(),
            auth_issuer: auth_issuer.to_owned(),
            auth_assertion_public_key: auth_assertion_public_key.to_owned(),
            project_callers,
            admin_callers,
            governance_callers,
        };
        match value.validate() {
            Ok(()) => Ok(value),
            Err(error) => Err(error),
        }
    }

    /// Whether the settings are valid.
    pub fn validate(&self) -> (result: Result<(), ProjectsConfigError>)
        ensures
            result == fault_result(
                config_fault(*self, is_verification_key(self.auth_assertion_public_key@)),
            ),
    {
        let key_accepted = accepts_key(
            self.auth_issuer.as_str(),
            self.auth_assertion_public_key.as_str(),
        );
        self.validate_with(key_accepted)
    }

    /// Whether the settings are valid, given whether the public key is accepted.
    pub fn validate_with(&self, key_accepted: bool) -> (result: Result<(), ProjectsConfigError>)
        ensures
            result == fault_result(config_fault(*self, key_accepted)),
    {
        if !valid_schema_name(self.schema.as_str()) {
            return Err(ProjectsConfigError::InvalidSchema);
        }
        if !valid_secret_reference(self.database_url_secret.as_str()) {
            return Err(ProjectsConfigError::InvalidSecretReference);
        }
        if !valid_id(self.auth_issuer.as_str()) {
            return Err(ProjectsConfigError::InvalidAuthIssuer);
        }
        if !key_accepted {
            return Err(ProjectsConfigError::InvalidAuthPublicKey);
        }
        if !valid_callers(&self.project_callers) {
            return Err(ProjectsConfigError::InvalidProjectCallers);
        }
        if !valid_callers(&self.admin_callers) {
            return Err(ProjectsConfigError::InvalidAdminCallers);
        }
        if !valid_callers(&self.governance_callers) {
            return Err(ProjectsConfigError::InvalidGovernanceCallers);
        }
        Ok(())
    }

    /// Whether the public key can verify assertions.
    pub fn verification_key(&self) -> (result: Result<(), RuntimeFailure>)
        ensures
            match result {
                Ok(()) => is_verification_key(self.auth_assertion_public_key@),
                Err(RuntimeFailure::InvalidResolvedPlan { detail }) => !is_verification_key(
                    self.auth_assertion_public_key@,
                ) && detail@ == "Projects Auth verification key is invalid"@,
                Err(_) => false,
            },
    {
        key_checked(
            accepts_key(self.auth_issuer.as_str(), self.auth_assertion_public_key.as_str()),
        )
    }
}

/// What becomes of a plan, given whether its public key is accepted.
pub fn key_checked(accepted: bool) -> (result: Result<(), RuntimeFailure>)
    ensures
        match result {
            Ok(()) => accepted,
            Err(RuntimeFailure::InvalidResolvedPlan { detail }) => !accepted && detail@
                == "Projects Auth verification key is invalid"@,
            Err(_) => false,
        },
{
    if accepted {
        Ok(())
    } else {
        Err(
            RuntimeFailure::InvalidResolvedPlan {
                detail: "Projects Auth verification key is invalid".to_owned(),
            },
        )
    }
}

/// Whether a configuration can be used: what is wrong with it is an invalid plan.
pub fn validate_config(config: &ProjectsConfig) -> (result: Result<(), RuntimeFailure>)
    ensures
        match config_fault(*config, is_verification_key(config.auth_assertion_public_key@)) {
            None => result is Ok,
            Some(error) => {
                &&& result matches Err(RuntimeFailure::InvalidResolvedPlan { detail })
                &&& detail@ == "Projects configuration is invalid: "@ + config_error_text(error)
            },
        },
{
    config_checked(config.validate())
}

/// What becomes of a plan, given what is wrong with its configuration.
pub fn config_checked(checked: Result<(), ProjectsConfigError>) -> (result: Result<
    (),
    RuntimeFailure,
>)
    ensures
        match checked {
            Ok(()) => result is Ok,
            Err(error) => {
                &&& result matches Err(RuntimeFailure::InvalidResolvedPlan { detail })
                &&& detail@ == "Projects configuration is invalid: "@ + config_error_text(error)
            },
        },
{
    match checked {
        Ok(()) => Ok(()),
        Err(error) => {
            let mut detail = "Projects configuration is invalid: ".to_owned();
            detail.append(error.message());
            Err(RuntimeFailure::InvalidResolvedPlan { detail })
        },
    }
}

/// What the failure to resolve a secret says.
pub fn secret_rejected(reference: &str) -> (failure: RuntimeFailure)
    ensures
        failure matches RuntimeFailure::PluginFailure { detail } && detail@ == "secret `"@
            + reference@ + "` was rejected"@,
{
    let mut detail = "secret `".to_owned();
    detail.append(reference);
    detail.append("` was rejected");
    RuntimeFailure::PluginFailure { detail }
}

} // verus!
