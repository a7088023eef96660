//! Managed secrets: their values and types, the server's answers about them,
//! and what this build's secret manager answers.
use vstd::prelude::*;
use crate::keyed::{entries_map, insert_entry, keys_distinct};
use crate::server::{GqlResult, ServerApiError, ServerTimestamp};

verus! {

/// The kind of a managed secret.
#[derive(Clone, Copy, Debug, PartialEq, Eq)]
pub enum ManagedSecretType {
    AnthropicApiKey,
    AnthropicBedrockAccessKey,
    AnthropicBedrockApiKey,
    Dotenvx,
    RawValue,
}

/// Whether a secret belongs to a team or a user.
#[derive(Clone, Copy, Debug, PartialEq, Eq)]
pub enum ManagedSecretOwnerType {
    Team,
    User,
}

/// Who owns a secret.
#[derive(Clone, Debug, PartialEq, Eq)]
pub struct ManagedSecretOwner {
    pub uid: String,
    pub type_: ManagedSecretOwnerType,
}

/// A managed secret's metadata (never its value).
#[derive(Clone, Debug, PartialEq, Eq)]
pub struct ManagedSecret {
    pub name: String,
    pub description: Option<String>,
    pub created_at: ServerTimestamp,
    pub updated_at: ServerTimestamp,
    pub owner: ManagedSecretOwner,
    pub type_: ManagedSecretType,
}

/// The key that secrets of an owner are encrypted with.
#[derive(Clone, Debug, PartialEq, Eq)]
pub struct ManagedSecretConfig {
    pub public_key: String,
}

/// A short-lived identity token for a task.
#[derive(Debug, Clone, PartialEq, Eq)]
pub struct TaskIdentityToken {
    pub token: String,
    pub expires_at: ServerTimestamp,
    pub issuer: String,
}

/// A vector with at least one element, as the `vec1` crate gives it.
#[verifier::external_type_specification]
#[verifier::external_body]
#[verifier::reject_recursive_types(T)]
pub struct ExVec1<T>(vec1::Vec1<T>);

/// The texts a `Vec1<String>` holds, in order.
pub uninterp spec fn vec1_texts(v: vec1::Vec1<String>) -> Seq<Seq<char>>;

/// `Vec1::into_vec`: the vector inside, which holds the same texts and, as
/// every `Vec1`, at least one.
#[verifier::external_body]
fn vec1_into_vec(v: vec1::Vec1<String>) -> (r: Vec<String>)
    ensures
        r@.map_values(|s: String| s@) == vec1_texts(v),
        r@.len() > 0,
{
    v.into_vec()
}

/// What an identity token is asked for: its audience, lifetime in seconds and
/// subject template (never empty).
pub struct IdentityTokenOptions {
    pub audience: String,
    pub requested_duration_secs: u64,
    pub subject_template: vec1::Vec1<String>,
}

/// The secret configurations of the user and of each team, by team uid.
#[derive(Debug)]
pub struct ManagedSecretConfigs {
    pub user_secrets: Option<ManagedSecretConfig>,
    pub team_secrets: Vec<(String, ManagedSecretConfig)>,
}

impl ManagedSecretConfigs {
    /// No team occurs twice among the team configurations: the list stands for
    /// a map by team uid.
    pub open spec fn well_formed(self) -> bool {
        keys_distinct(self.team_secrets@)
    }
}

/// Whose secret a request is about.
#[derive(Debug, Clone, PartialEq, Eq)]
pub enum SecretOwner {
    CurrentUser,
    Team { team_uid: String },
}

/// A secret's value.
#[derive(Clone, PartialEq, Eq)]
pub enum ManagedSecretValue {
    RawValue { value: String },
    AnthropicApiKey { api_key: String },
    AnthropicBedrockAccessKey {
        aws_access_key_id: String,
        aws_secret_access_key: String,
        aws_session_token: Option<String>,
        aws_region: String,
    },
    AnthropicBedrockApiKey { aws_bearer_token_bedrock: String, aws_region: String },
}

impl ManagedSecretValue {
    pub fn raw_value(s: String) -> (v: Self)
        ensures
            v == (ManagedSecretValue::RawValue { value: s }),
    {
        ManagedSecretValue::RawValue { value: s }
    }

    pub fn anthropic_api_key(s: String) -> (v: Self)
        ensures
            v == (ManagedSecretValue::AnthropicApiKey { api_key: s }),
    {
        ManagedSecretValue::AnthropicApiKey { api_key: s }
    }

    pub fn anthropic_bedrock_access_key(
        access_key_id: String,
        secret_access_key: String,
        session_token: Option<String>,
        region: String,
    ) -> (v: Self)
        ensures
            v == (ManagedSecretValue::AnthropicBedrockAccessKey {
                aws_access_key_id: access_key_id,
                aws_secret_access_key: secret_access_key,
                aws_session_token: session_token,
                aws_region: region,
            }),
    {
        ManagedSecretValue::AnthropicBedrockAccessKey {
            aws_access_key_id: access_key_id,
            aws_secret_access_key: secret_access_key,
            aws_session_token: session_token,
            aws_region: region,
        }
    }

    pub fn anthropic_bedrock_api_key(token: String, region: String) -> (v: Self)
        ensures
            v == (ManagedSecretValue::AnthropicBedrockApiKey { aws_bearer_token_bedrock: token, aws_region: region }),
    {
        ManagedSecretValue::AnthropicBedrockApiKey { aws_bearer_token_bedrock: token, aws_region: region }
    }

    /// The kind of secret the value is.
    pub fn secret_type(&self) -> (t: ManagedSecretType)
        ensures
            t == match *self {
                ManagedSecretValue::RawValue { .. } => ManagedSecretType::RawValue,
                ManagedSecretValue::AnthropicApiKey { .. } => ManagedSecretType::AnthropicApiKey,
                ManagedSecretValue::AnthropicBedrockAccessKey { .. } => ManagedSecretType::AnthropicBedrockAccessKey,
                ManagedSecretValue::AnthropicBedrockApiKey { .. } => ManagedSecretType::AnthropicBedrockApiKey,
            },
    {
        match self {
            ManagedSecretValue::RawValue { .. } => ManagedSecretType::RawValue,
            ManagedSecretValue::AnthropicApiKey { .. } => ManagedSecretType::AnthropicApiKey,
            ManagedSecretValue::AnthropicBedrockAccessKey { .. } => ManagedSecretType::AnthropicBedrockAccessKey,
            ManagedSecretValue::AnthropicBedrockApiKey { .. } => ManagedSecretType::AnthropicBedrockApiKey,
        }
    }
}

/// How GCP workload identity federation is configured.
#[derive(Debug, Clone)]
pub struct GcpFederationConfig {
    pub project_number: String,
    pub pool_id: String,
    pub provider_id: String,
    pub service_account_email: Option<String>,
    pub token_lifetime_secs: Option<u64>,
}

/// Why GCP credentials could not be prepared.
#[derive(Debug, PartialEq, Eq)]
pub enum PrepareGcpCredentialsError {
    Unavailable,
}

impl PrepareGcpCredentialsError {
    pub fn message(&self) -> (s: String)
        ensures
            s@ == "managed secrets are not available in this build"@,
    {
        String::from_str("managed secrets are not available in this build")
    }
}

/// GCP credentials prepared for a run; never prepared in this build.
pub struct GcpCredentials;

impl GcpCredentials {
    /// Federated credentials are not available in this build.
    pub fn federated(run_id: &str, config: &GcpFederationConfig) -> (r: Result<Self, PrepareGcpCredentialsError>)
        ensures
            r matches Err(e) && e == PrepareGcpCredentialsError::Unavailable,
    {
        Err(PrepareGcpCredentialsError::Unavailable)
    }

    /// The environment variables that expose the credentials: none.
    pub fn env_vars(&self) -> (v: Vec<(String, String)>)
        ensures
            v@.len() == 0,
    {
        Vec::new()
    }

    /// Removing the credentials always succeeds.
    pub fn cleanup(self) -> (r: Result<(), PrepareGcpCredentialsError>)
        ensures
            r is Ok,
    {
        Ok(())
    }
}

/// The token a GCP workload identity federation exchange hands out.
#[derive(Debug, Clone)]
pub struct GcpWorkloadIdentityFederationToken {
    pub version: i32,
    pub success: bool,
    pub token_type: Option<String>,
    pub id_token: Option<String>,
    pub expiration_time: Option<u64>,
    pub code: Option<String>,
    pub message: Option<String>,
}

/// Why a GCP workload identity federation token could not be issued.
#[derive(Debug, PartialEq, Eq)]
pub enum GcpWorkloadIdentityFederationError {
    Unavailable,
}

/// Tells who is acting.
pub trait ActorProvider {
    fn actor_uid(&self) -> Option<String>;
}

/// The message of managed secret operations this build cannot perform.
pub open spec fn secrets_unavailable_message() -> Seq<char> {
    "managed secrets are not available in this build"@
}

/// The error of managed secret operations this build cannot perform.
pub fn unavailable() -> (e: ServerApiError)
    ensures
        e.message@ == secrets_unavailable_message(),
{
    ServerApiError { message: String::from_str("managed secrets are not available in this build") }
}

/// Manages secrets on behalf of the user; this build can only list nothing.
pub struct ManagedSecretManager;

impl ManagedSecretManager {
    pub fn new() -> (m: Self) {
        ManagedSecretManager
    }

    pub fn create_secret(&self, owner: SecretOwner, name: String, value: ManagedSecretValue, description: Option<String>) -> (r: Result<ManagedSecret, ServerApiError>)
        ensures
            r matches Err(e) && e.message@ == secrets_unavailable_message(),
    {
        Err(unavailable())
    }

    pub fn delete_secret(&self, owner: SecretOwner, name: String) -> (r: Result<(), ServerApiError>)
        ensures
            r matches Err(e) && e.message@ == secrets_unavailable_message(),
    {
        Err(unavailable())
    }

    pub fn update_secret(&self, owner: SecretOwner, name: String, value: Option<ManagedSecretValue>, description: Option<String>) -> (r: Result<ManagedSecret, ServerApiError>)
        ensures
            r matches Err(e) && e.message@ == secrets_unavailable_message(),
    {
        Err(unavailable())
    }

    pub fn list_secrets(&self) -> (r: Result<Vec<ManagedSecret>, ServerApiError>)
        ensures
            r matches Ok(v) && v@.len() == 0,
    {
        Ok(Vec::new())
    }

    pub fn get_task_secrets(&self, task_id: String) -> (r: Result<Vec<(String, ManagedSecretValue)>, ServerApiError>)
        ensures
            r matches Ok(v) && v@.len() == 0,
    {
        Ok(Vec::new())
    }

    pub fn issue_task_identity_token(&self, options: IdentityTokenOptions) -> (r: Result<TaskIdentityToken, ServerApiError>)
        ensures
            r matches Err(e) && e.message@ == secrets_unavailable_message(),
    {
        Err(unavailable())
    }

    pub fn issue_gcp_workload_identity_federation_token(&self, audience: String, token_type: String, duration_secs: u64)
        -> (r: Result<GcpWorkloadIdentityFederationToken, GcpWorkloadIdentityFederationError>)
        ensures
            r matches Err(e) && e == GcpWorkloadIdentityFederationError::Unavailable,
    {
        Err(GcpWorkloadIdentityFederationError::Unavailable)
    }
}

} // verus!

verus! {

/// A secret's kind as the GraphQL response states it.
#[derive(Clone, Copy, Debug, PartialEq, Eq)]
pub enum GqlManagedSecretType {
    AnthropicApiKey,
    AnthropicBedrockAccessKey,
    AnthropicBedrockApiKey,
    Dotenvx,
    RawValue,
}

pub open spec fn spec_managed_secret_type(t: GqlManagedSecretType) -> ManagedSecretType {
    match t {
        GqlManagedSecretType::AnthropicApiKey => ManagedSecretType::AnthropicApiKey,
        GqlManagedSecretType::AnthropicBedrockAccessKey => ManagedSecretType::AnthropicBedrockAccessKey,
        GqlManagedSecretType::AnthropicBedrockApiKey => ManagedSecretType::AnthropicBedrockApiKey,
        GqlManagedSecretType::Dotenvx => ManagedSecretType::Dotenvx,
        GqlManagedSecretType::RawValue => ManagedSecretType::RawValue,
    }
}

/// Maps the GraphQL secret kind to the client's.
pub fn managed_secret_type(t: GqlManagedSecretType) -> (r: ManagedSecretType)
    ensures
        r == spec_managed_secret_type(t),
{
    match t {
        GqlManagedSecretType::AnthropicApiKey => ManagedSecretType::AnthropicApiKey,
        GqlManagedSecretType::AnthropicBedrockAccessKey => ManagedSecretType::AnthropicBedrockAccessKey,
        GqlManagedSecretType::AnthropicBedrockApiKey => ManagedSecretType::AnthropicBedrockApiKey,
        GqlManagedSecretType::Dotenvx => ManagedSecretType::Dotenvx,
        GqlManagedSecretType::RawValue => ManagedSecretType::RawValue,
    }
}

/// The kind of space that owns an object, as the GraphQL response states it.
#[derive(Clone, Copy, Debug, PartialEq, Eq)]
pub enum GqlSpaceType {
    Team,
    User,
}

/// A managed secret as the GraphQL response states it.
#[derive(Clone, Debug, PartialEq, Eq)]
pub struct GqlManagedSecret {
    pub name: String,
    pub description: Option<String>,
    pub created_at: ServerTimestamp,
    pub updated_at: ServerTimestamp,
    pub owner_uid: String,
    pub owner_type: GqlSpaceType,
    pub type_: GqlManagedSecretType,
}

pub open spec fn spec_managed_secret(s: GqlManagedSecret) -> ManagedSecret {
    ManagedSecret {
        name: s.name,
        description: s.description,
        created_at: s.created_at,
        updated_at: s.updated_at,
        owner: ManagedSecretOwner {
            uid: s.owner_uid,
            type_: match s.owner_type {
                GqlSpaceType::Team => ManagedSecretOwnerType::Team,
                GqlSpaceType::User => ManagedSecretOwnerType::User,
            },
        },
        type_: spec_managed_secret_type(s.type_),
    }
}

/// Maps a GraphQL managed secret to the client's.
pub fn managed_secret(secret: GqlManagedSecret) -> (r: ManagedSecret)
    ensures
        r == spec_managed_secret(secret),
{
    let GqlManagedSecret { name, description, created_at, updated_at, owner_uid, owner_type, type_ } = secret;
    ManagedSecret {
        name,
        description,
        created_at,
        updated_at,
        owner: ManagedSecretOwner {
            uid: owner_uid,
            type_: match owner_type {
                GqlSpaceType::Team => ManagedSecretOwnerType::Team,
                GqlSpaceType::User => ManagedSecretOwnerType::User,
            },
        },
        type_: managed_secret_type(type_),
    }
}

/// A secret's value as the GraphQL response states it.
#[derive(Clone, Debug, PartialEq, Eq)]
pub enum GqlManagedSecretValue {
    ManagedSecretRawValue { value: String },
    ManagedSecretAnthropicApiKeyValue { api_key: String },
    ManagedSecretAnthropicBedrockAccessKeyValue {
        aws_access_key_id: String,
        aws_secret_access_key: String,
        aws_session_token: Option<String>,
        aws_region: String,
    },
    ManagedSecretAnthropicBedrockApiKeyValue { aws_bearer_token_bedrock: String, aws_region: String },
    Unknown,
}

pub open spec fn spec_managed_secret_value(v: GqlManagedSecretValue) -> Option<ManagedSecretValue> {
    match v {
        GqlManagedSecretValue::ManagedSecretRawValue { value } => Some(ManagedSecretValue::RawValue { value }),
        GqlManagedSecretValue::ManagedSecretAnthropicApiKeyValue { api_key } => Some(ManagedSecretValue::AnthropicApiKey { api_key }),
        GqlManagedSecretValue::ManagedSecretAnthropicBedrockAccessKeyValue {
            aws_access_key_id,
            aws_secret_access_key,
            aws_session_token,
            aws_region,
        } => Some(ManagedSecretValue::AnthropicBedrockAccessKey {
            aws_access_key_id,
            aws_secret_access_key,
            aws_session_token,
            aws_region,
        }),
        GqlManagedSecretValue::ManagedSecretAnthropicBedrockApiKeyValue { aws_bearer_token_bedrock, aws_region } =>
            Some(ManagedSecretValue::AnthropicBedrockApiKey { aws_bearer_token_bedrock, aws_region }),
        GqlManagedSecretValue::Unknown => None,
    }
}

/// Maps a GraphQL secret value to the client's; a kind the client does not know is an error.
pub fn managed_secret_value(value: GqlManagedSecretValue) -> (r: Result<ManagedSecretValue, ServerApiError>)
    ensures
        spec_managed_secret_value(value) matches Some(v) ==> r == Ok::<ManagedSecretValue, ServerApiError>(v),
        spec_managed_secret_value(value) is None ==> (r matches Err(e) && e.message@ == "Unknown managed secret value type"@),
{
    match value {
        GqlManagedSecretValue::ManagedSecretRawValue { value } => Ok(ManagedSecretValue::raw_value(value)),
        GqlManagedSecretValue::ManagedSecretAnthropicApiKeyValue { api_key } => Ok(ManagedSecretValue::anthropic_api_key(api_key)),
        GqlManagedSecretValue::ManagedSecretAnthropicBedrockAccessKeyValue {
            aws_access_key_id,
            aws_secret_access_key,
            aws_session_token,
            aws_region,
        } => Ok(ManagedSecretValue::anthropic_bedrock_access_key(aws_access_key_id, aws_secret_access_key, aws_session_token, aws_region)),
        GqlManagedSecretValue::ManagedSecretAnthropicBedrockApiKeyValue { aws_bearer_token_bedrock, aws_region } =>
            Ok(ManagedSecretValue::anthropic_bedrock_api_key(aws_bearer_token_bedrock, aws_region)),
        GqlManagedSecretValue::Unknown => Err(ServerApiError { message: String::from_str("Unknown managed secret value type") }),
    }
}

/// The kind of owner a GraphQL request names.
#[derive(Clone, Copy, Debug, PartialEq, Eq)]
pub enum GqlOwnerType {
    User,
    Team,
}

/// The owner a GraphQL request names.
#[derive(Clone, Debug, PartialEq, Eq)]
pub struct GqlOwner {
    pub type_: GqlOwnerType,
    pub uid: Option<String>,
}

/// The owner sent with a secret request: the current user without uid, or the team with its uid.
pub fn secret_owner_input(owner: SecretOwner) -> (o: GqlOwner)
    ensures
        o == match owner {
            SecretOwner::CurrentUser => GqlOwner { type_: GqlOwnerType::User, uid: None },
            SecretOwner::Team { team_uid } => GqlOwner { type_: GqlOwnerType::Team, uid: Some(team_uid) },
        },
{
    match owner {
        SecretOwner::CurrentUser => GqlOwner { type_: GqlOwnerType::User, uid: None },
        SecretOwner::Team { team_uid } => GqlOwner { type_: GqlOwnerType::Team, uid: Some(team_uid) },
    }
}

/// What a request to create a secret sends.
#[derive(Clone, Debug, PartialEq, Eq)]
pub struct GqlCreateManagedSecretInput {
    pub description: Option<String>,
    pub encrypted_value: String,
    pub name: String,
    pub owner: GqlOwner,
    pub type_: ManagedSecretType,
}

/// The request to create a secret: its owner as the request names owners, and
/// the rest as given.
pub fn create_managed_secret_input(
    owner: SecretOwner,
    name: String,
    secret_type: ManagedSecretType,
    encrypted_value: String,
    description: Option<String>,
) -> (i: GqlCreateManagedSecretInput)
    ensures
        i == (GqlCreateManagedSecretInput {
            description,
            encrypted_value,
            name,
            owner: match owner {
                SecretOwner::CurrentUser => GqlOwner { type_: GqlOwnerType::User, uid: None },
                SecretOwner::Team { team_uid } => GqlOwner { type_: GqlOwnerType::Team, uid: Some(team_uid) },
            },
            type_: secret_type,
        }),
{
    GqlCreateManagedSecretInput { description, encrypted_value, name, owner: secret_owner_input(owner), type_: secret_type }
}

/// What a request to delete a secret sends.
#[derive(Clone, Debug, PartialEq, Eq)]
pub struct GqlDeleteManagedSecretInput {
    pub name: String,
    pub owner: GqlOwner,
}

/// The request to delete a secret.
pub fn delete_managed_secret_input(owner: SecretOwner, name: String) -> (i: GqlDeleteManagedSecretInput)
    ensures
        i == (GqlDeleteManagedSecretInput {
            name,
            owner: match owner {
                SecretOwner::CurrentUser => GqlOwner { type_: GqlOwnerType::User, uid: None },
                SecretOwner::Team { team_uid } => GqlOwner { type_: GqlOwnerType::Team, uid: Some(team_uid) },
            },
        }),
{
    GqlDeleteManagedSecretInput { name, owner: secret_owner_input(owner) }
}

/// What a request to update a secret sends.
#[derive(Clone, Debug, PartialEq, Eq)]
pub struct GqlUpdateManagedSecretInput {
    pub name: String,
    pub owner: GqlOwner,
    pub encrypted_value: Option<String>,
    pub description: Option<String>,
}

/// The request to update a secret: only what is given changes.
pub fn update_managed_secret_input(
    owner: SecretOwner,
    name: String,
    encrypted_value: Option<String>,
    description: Option<String>,
) -> (i: GqlUpdateManagedSecretInput)
    ensures
        i == (GqlUpdateManagedSecretInput {
            name,
            owner: match owner {
                SecretOwner::CurrentUser => GqlOwner { type_: GqlOwnerType::User, uid: None },
                SecretOwner::Team { team_uid } => GqlOwner { type_: GqlOwnerType::Team, uid: Some(team_uid) },
            },
            encrypted_value,
            description,
        }),
{
    GqlUpdateManagedSecretInput { name, owner: secret_owner_input(owner), encrypted_value, description }
}

/// A team as the secret configuration response lists it.
#[derive(Clone, Debug, PartialEq, Eq)]
pub struct GqlTeam {
    pub uid: String,
    pub managed_secrets: Option<ManagedSecretConfig>,
}

/// A workspace as the secret configuration response lists it.
#[derive(Clone, Debug, PartialEq, Eq)]
pub struct GqlWorkspace {
    pub teams: Vec<GqlTeam>,
}

/// The user's part of the secret configuration response.
#[derive(Clone, Debug, PartialEq, Eq)]
pub struct GqlUserSecretConfigs {
    pub managed_secrets: Option<ManagedSecretConfig>,
    pub workspaces: Vec<GqlWorkspace>,
}

/// All teams of the workspaces, workspace by workspace.
pub open spec fn all_teams(workspaces: Seq<GqlWorkspace>) -> Seq<GqlTeam>
    decreases workspaces.len(),
{
    if workspaces.len() == 0 {
        Seq::empty()
    } else {
        all_teams(workspaces.drop_last()) + workspaces.last().teams@
    }
}

/// The configurations by team uid: each team with a configuration sets its
/// uid's entry, a later team replacing an earlier one with the same uid.
pub open spec fn team_config_map(teams: Seq<GqlTeam>) -> Map<Seq<char>, ManagedSecretConfig>
    decreases teams.len(),
{
    if teams.len() == 0 {
        Map::empty()
    } else {
        let before = team_config_map(teams.drop_last());
        match teams.last().managed_secrets {
            Some(c) => before.insert(teams.last().uid@, c),
            None => before,
        }
    }
}

/// The secret configurations of the user and of the teams in a response.
pub fn managed_secret_configs_from(user: GqlUserSecretConfigs) -> (r: ManagedSecretConfigs)
    ensures
        r.user_secrets == user.managed_secrets,
        r.well_formed(),
        keys_distinct(r.team_secrets@),
        entries_map(r.team_secrets@) == team_config_map(all_teams(user.workspaces@)),
{
    let GqlUserSecretConfigs { managed_secrets, workspaces } = user;
    let ghost ws = workspaces@;
    let mut team_configs: Vec<(String, ManagedSecretConfig)> = Vec::new();
    proof {
        assert(entries_map(team_configs@) =~= Map::<Seq<char>, ManagedSecretConfig>::empty());
    }
    for workspace in it: workspaces
        invariant
            ws == it.seq(),
            keys_distinct(team_configs@),
            entries_map(team_configs@) == team_config_map(all_teams(it.seq().subrange(0, it.index() as int))),
    {
        let ghost before = all_teams(it.seq().subrange(0, it.index() as int));
        let ghost teams_seq = workspace.teams@;
        proof {
            assert(before + teams_seq.subrange(0, 0) =~= before);
        }
        for team in jt: workspace.teams
            invariant
                teams_seq == jt.seq(),
                keys_distinct(team_configs@),
                entries_map(team_configs@) == team_config_map(before + jt.seq().subrange(0, jt.index() as int)),
        {
            proof {
                assert((before + jt.seq().subrange(0, jt.index() + 1)).drop_last() =~= before + jt.seq().subrange(0, jt.index() as int));
            }
            match team.managed_secrets {
                Some(config) => insert_entry(&mut team_configs, team.uid, config),
                None => {},
            }
        }
        proof {
            assert(it.seq().subrange(0, it.index() + 1).drop_last() =~= it.seq().subrange(0, it.index() as int));
            assert(before + teams_seq.subrange(0, teams_seq.len() as int) =~= all_teams(it.seq().subrange(0, it.index() + 1)));
        }
    }
    proof {
        assert(ws.subrange(0, ws.len() as int) =~= ws);
    }
    ManagedSecretConfigs { user_secrets: managed_secrets, team_secrets: team_configs }
}

/// The user-facing message of an error, or `unknown` for an answer the client does not know.
pub open spec fn gql_error_message<T>(response: GqlResult<T>, unknown: Seq<char>) -> Seq<char> {
    match response {
        GqlResult::UserFacingError(e) => e.message@,
        _ => unknown,
    }
}

/// The client's secret configurations from the server's answer.
pub fn get_managed_secret_configs_response(response: GqlResult<GqlUserSecretConfigs>) -> (r: Result<ManagedSecretConfigs, ServerApiError>)
    ensures
        match response {
            GqlResult::Output(u) => r matches Ok(c)
                && c.user_secrets == u.managed_secrets
                && keys_distinct(c.team_secrets@)
                && entries_map(c.team_secrets@) == team_config_map(all_teams(u.workspaces@)),
            _ => r matches Err(e) && e.message@ == gql_error_message(response, "Unknown error while getting managed secret configs"@),
        },
{
    match response {
        GqlResult::Output(u) => Ok(managed_secret_configs_from(u)),
        GqlResult::UserFacingError(e) => Err(ServerApiError { message: e.message }),
        GqlResult::Unknown => Err(ServerApiError { message: String::from_str("Unknown error while getting managed secret configs") }),
    }
}

/// The created secret from the server's answer.
pub fn create_managed_secret_response(response: GqlResult<GqlManagedSecret>) -> (r: Result<ManagedSecret, ServerApiError>)
    ensures
        match response {
            GqlResult::Output(s) => r == Ok::<ManagedSecret, ServerApiError>(spec_managed_secret(s)),
            _ => r matches Err(e) && e.message@ == gql_error_message(response, "Unknown error while creating managed secret"@),
        },
{
    match response {
        GqlResult::Output(s) => Ok(managed_secret(s)),
        GqlResult::UserFacingError(e) => Err(ServerApiError { message: e.message }),
        GqlResult::Unknown => Err(ServerApiError { message: String::from_str("Unknown error while creating managed secret") }),
    }
}

/// Whether the server confirmed a deletion.
pub fn delete_managed_secret_response(response: GqlResult<()>) -> (r: Result<(), ServerApiError>)
    ensures
        match response {
            GqlResult::Output(_) => r is Ok,
            _ => r matches Err(e) && e.message@ == gql_error_message(response, "Unknown error while deleting managed secret"@),
        },
{
    match response {
        GqlResult::Output(_) => Ok(()),
        GqlResult::UserFacingError(e) => Err(ServerApiError { message: e.message }),
        GqlResult::Unknown => Err(ServerApiError { message: String::from_str("Unknown error while deleting managed secret") }),
    }
}

/// The updated secret from the server's answer.
pub fn update_managed_secret_response(response: GqlResult<GqlManagedSecret>) -> (r: Result<ManagedSecret, ServerApiError>)
    ensures
        match response {
            GqlResult::Output(s) => r == Ok::<ManagedSecret, ServerApiError>(spec_managed_secret(s)),
            _ => r matches Err(e) && e.message@ == gql_error_message(response, "Unknown error while updating managed secret"@),
        },
{
    match response {
        GqlResult::Output(s) => Ok(managed_secret(s)),
        GqlResult::UserFacingError(e) => Err(ServerApiError { message: e.message }),
        GqlResult::Unknown => Err(ServerApiError { message: String::from_str("Unknown error while updating managed secret") }),
    }
}

/// Maps every GraphQL secret to the client's, in order.
pub fn managed_secrets_of(secrets: Vec<GqlManagedSecret>) -> (r: Vec<ManagedSecret>)
    ensures
        r@ == secrets@.map_values(|s: GqlManagedSecret| spec_managed_secret(s)),
{
    let ghost all = secrets@;
    let mut out: Vec<ManagedSecret> = Vec::new();
    for s in it: secrets
        invariant
            all == it.seq(),
            out@ == it.seq().subrange(0, it.index() as int).map_values(|s: GqlManagedSecret| spec_managed_secret(s)),
    {
        out.push(managed_secret(s));
        proof {
            assert(it.seq().subrange(0, it.index() + 1).map_values(|s: GqlManagedSecret| spec_managed_secret(s))
                =~= out@);
        }
    }
    proof {
        assert(all.subrange(0, all.len() as int) =~= all);
    }
    out
}

/// The listed secrets from the server's answer.
pub fn list_secrets_response(response: GqlResult<Vec<GqlManagedSecret>>) -> (r: Result<Vec<ManagedSecret>, ServerApiError>)
    ensures
        match response {
            GqlResult::Output(v) => r matches Ok(out) && out@ == v@.map_values(|s: GqlManagedSecret| spec_managed_secret(s)),
            _ => r matches Err(e) && e.message@ == gql_error_message(response, "Unknown error while listing managed secrets"@),
        },
{
    match response {
        GqlResult::Output(v) => Ok(managed_secrets_of(v)),
        GqlResult::UserFacingError(e) => Err(ServerApiError { message: e.message }),
        GqlResult::Unknown => Err(ServerApiError { message: String::from_str("Unknown error while listing managed secrets") }),
    }
}

/// A secret of a task as the GraphQL response states it.
#[derive(Clone, Debug, PartialEq, Eq)]
pub struct GqlTaskSecretEntry {
    pub name: String,
    pub value: GqlManagedSecretValue,
}

/// Whether every entry's value is of a kind the client knows.
pub open spec fn task_values_known(entries: Seq<GqlTaskSecretEntry>) -> bool {
    forall|i: int| 0 <= i < entries.len() ==> #[trigger] spec_managed_secret_value(entries[i].value) is Some
}

/// The task's secrets by name: each entry sets its name's value, a later entry
/// replacing an earlier one with the same name.
pub open spec fn task_secret_map(entries: Seq<GqlTaskSecretEntry>) -> Map<Seq<char>, ManagedSecretValue>
    decreases entries.len(),
{
    if entries.len() == 0 {
        Map::empty()
    } else {
        task_secret_map(entries.drop_last()).insert(
            entries.last().name@,
            spec_managed_secret_value(entries.last().value).unwrap(),
        )
    }
}

/// The secrets of a task by name; a value of a kind the client does not know
/// fails the whole answer.
pub fn task_secrets_from(entries: Vec<GqlTaskSecretEntry>) -> (r: Result<Vec<(String, ManagedSecretValue)>, ServerApiError>)
    ensures
        task_values_known(entries@) ==> (r matches Ok(v) && keys_distinct(v@) && entries_map(v@) == task_secret_map(entries@)),
        !task_values_known(entries@) ==> (r matches Err(e) && e.message@ == "Unknown managed secret value type"@),
{
    let ghost all = entries@;
    let mut out: Vec<(String, ManagedSecretValue)> = Vec::new();
    proof {
        assert(entries_map(out@) =~= Map::<Seq<char>, ManagedSecretValue>::empty());
    }
    for entry in it: entries
        invariant
            all == it.seq(),
            keys_distinct(out@),
            task_values_known(it.seq().subrange(0, it.index() as int)),
            entries_map(out@) == task_secret_map(it.seq().subrange(0, it.index() as int)),
    {
        let ghost idx = it.index() as int;
        let ghost pre = it.seq().subrange(0, idx + 1);
        proof {
            assert(pre.drop_last() =~= it.seq().subrange(0, idx));
            assert(pre.last() == entry);
        }
        let GqlTaskSecretEntry { name, value } = entry;
        match managed_secret_value(value) {
            Ok(v) => {
                insert_entry(&mut out, name, v);
                proof {
                    assert forall|i: int| 0 <= i < pre.len() implies #[trigger] spec_managed_secret_value(pre[i].value) is Some by {
                        if i < idx {
                            assert(pre[i] == it.seq().subrange(0, idx)[i]);
                        }
                    }
                }
            },
            Err(e) => {
                proof {
                    assert(all[idx] == entry);
                    assert(!task_values_known(all));
                }
                return Err(e);
            },
        }
    }
    proof {
        assert(all.subrange(0, all.len() as int) =~= all);
    }
    Ok(out)
}

/// The task's secrets from the server's answer.
pub fn get_task_secrets_response(response: GqlResult<Vec<GqlTaskSecretEntry>>) -> (r: Result<Vec<(String, ManagedSecretValue)>, ServerApiError>)
    ensures
        match response {
            GqlResult::Output(entries) => if task_values_known(entries@) {
                r matches Ok(v) && keys_distinct(v@) && entries_map(v@) == task_secret_map(entries@)
            } else {
                r matches Err(e) && e.message@ == "Unknown managed secret value type"@
            },
            _ => r matches Err(e) && e.message@ == gql_error_message(response, "Unknown error while getting task secrets"@),
        },
{
    match response {
        GqlResult::Output(entries) => task_secrets_from(entries),
        GqlResult::UserFacingError(e) => Err(ServerApiError { message: e.message }),
        GqlResult::Unknown => Err(ServerApiError { message: String::from_str("Unknown error while getting task secrets") }),
    }
}

/// What a request for an identity token sends.
#[derive(Clone, Debug, PartialEq, Eq)]
pub struct GqlIssueTaskIdentityTokenInput {
    pub audience: String,
    pub requested_duration_seconds: i32,
    pub subject_template: Option<Vec<String>>,
}

/// The request for an identity token; a lifetime in seconds that does not fit
/// the request's integer is refused.
pub fn issue_task_identity_token_input(options: IdentityTokenOptions) -> (r: Result<GqlIssueTaskIdentityTokenInput, ServerApiError>)
    ensures
        options.requested_duration_secs <= i32::MAX ==> (r matches Ok(i)
            && i.audience == options.audience
            && i.requested_duration_seconds == options.requested_duration_secs
            && (i.subject_template matches Some(t)
            && t@.map_values(|s: String| s@) == vec1_texts(options.subject_template)
            && t@.len() > 0)),
        options.requested_duration_secs > i32::MAX ==> (r matches Err(e) && e.message@ == "Requested duration out of bounds"@),
{
    let IdentityTokenOptions { audience, requested_duration_secs, subject_template } = options;
    if requested_duration_secs > 2147483647u64 {
        return Err(ServerApiError { message: String::from_str("Requested duration out of bounds") });
    }
    Ok(GqlIssueTaskIdentityTokenInput {
        audience,
        requested_duration_seconds: requested_duration_secs as i32,
        subject_template: Some(vec1_into_vec(subject_template)),
    })
}

/// An identity token as the GraphQL response states it.
#[derive(Clone, Debug, PartialEq, Eq)]
pub struct GqlTaskIdentityTokenOutput {
    pub token: String,
    pub expires_at: ServerTimestamp,
    pub issuer: String,
}

/// The identity token from the server's answer.
pub fn issue_task_identity_token_response(response: GqlResult<GqlTaskIdentityTokenOutput>) -> (r: Result<TaskIdentityToken, ServerApiError>)
    ensures
        match response {
            GqlResult::Output(o) => r == Ok::<TaskIdentityToken, ServerApiError>(TaskIdentityToken {
                token: o.token,
                expires_at: o.expires_at,
                issuer: o.issuer,
            }),
            _ => r matches Err(e) && e.message@ == gql_error_message(response, "Unknown error while issuing task identity token"@),
        },
{
    match response {
        GqlResult::Output(o) => Ok(TaskIdentityToken { token: o.token, expires_at: o.expires_at, issuer: o.issuer }),
        GqlResult::UserFacingError(e) => Err(ServerApiError { message: e.message }),
        GqlResult::Unknown => Err(ServerApiError { message: String::from_str("Unknown error while issuing task identity token") }),
    }
}

/// The message of the secret server calls this build cannot make.
pub open spec fn secret_apis_unavailable_message() -> Seq<char> {
    "Managed secrets server APIs are not available in this build"@
}

/// The error of the secret server calls this build cannot make.
pub fn managed_secrets_unavailable<T>() -> (r: Result<T, ServerApiError>)
    ensures
        r matches Err(e) && e.message@ == secret_apis_unavailable_message(),
{
    Err(ServerApiError { message: String::from_str("Managed secrets server APIs are not available in this build") })
}

/// The server calls about managed secrets.
pub trait ManagedSecretsClient {
    fn get_managed_secret_configs(&self) -> Result<ManagedSecretConfigs, ServerApiError>;

    fn create_managed_secret(
        &self,
        owner: SecretOwner,
        name: String,
        secret_type: ManagedSecretType,
        encrypted_value: String,
        description: Option<String>,
    ) -> Result<ManagedSecret, ServerApiError>;

    fn delete_managed_secret(&self, owner: SecretOwner, name: String) -> Result<(), ServerApiError>;

    fn update_managed_secret(
        &self,
        owner: SecretOwner,
        name: String,
        encrypted_value: Option<String>,
        description: Option<String>,
    ) -> Result<ManagedSecret, ServerApiError>;

    fn list_secrets(&self) -> Result<Vec<ManagedSecret>, ServerApiError>;

    fn get_task_secrets(&self, task_id: String, workload_token: String) -> Result<Vec<(String, ManagedSecretValue)>, ServerApiError>;

    fn issue_task_identity_token(&self, options: IdentityTokenOptions) -> Result<TaskIdentityToken, ServerApiError>;
}

/// The secret server calls of this build: nothing is stored, nothing can be made.
pub struct OssManagedSecretsClient;

impl ManagedSecretsClient for OssManagedSecretsClient {
    fn get_managed_secret_configs(&self) -> (r: Result<ManagedSecretConfigs, ServerApiError>)
        ensures
            r matches Ok(c) && c.user_secrets is None && c.team_secrets@.len() == 0 && c.well_formed(),
    {
        Ok(ManagedSecretConfigs { user_secrets: None, team_secrets: Vec::new() })
    }

    fn create_managed_secret(
        &self,
        owner: SecretOwner,
        name: String,
        secret_type: ManagedSecretType,
        encrypted_value: String,
        description: Option<String>,
    ) -> (r: Result<ManagedSecret, ServerApiError>)
        ensures
            r matches Err(e) && e.message@ == secret_apis_unavailable_message(),
    {
        managed_secrets_unavailable()
    }

    fn delete_managed_secret(&self, owner: SecretOwner, name: String) -> (r: Result<(), ServerApiError>)
        ensures
            r is Ok,
    {
        Ok(())
    }

    fn update_managed_secret(
        &self,
        owner: SecretOwner,
        name: String,
        encrypted_value: Option<String>,
        description: Option<String>,
    ) -> (r: Result<ManagedSecret, ServerApiError>)
        ensures
            r matches Err(e) && e.message@ == secret_apis_unavailable_message(),
    {
        managed_secrets_unavailable()
    }

    fn list_secrets(&self) -> (r: Result<Vec<ManagedSecret>, ServerApiError>)
        ensures
            r matches Ok(v) && v@.len() == 0,
    {
        Ok(Vec::new())
    }

    fn get_task_secrets(&self, task_id: String, workload_token: String) -> (r: Result<Vec<(String, ManagedSecretValue)>, ServerApiError>)
        ensures
            r matches Ok(v) && v@.len() == 0,
    {
        Ok(Vec::new())
    }

    fn issue_task_identity_token(&self, options: IdentityTokenOptions) -> (r: Result<TaskIdentityToken, ServerApiError>)
        ensures
            r matches Err(e) && e.message@ == secret_apis_unavailable_message(),
    {
        managed_secrets_unavailable()
    }
}


/// A secret's kind keeps the case the server gave: each of the five kinds maps
/// to the client kind of the same name, so no two server kinds become one.
pub proof fn law_managed_secret_type_keeps_kind(t: GqlManagedSecretType, other: GqlManagedSecretType)
    ensures
        (spec_managed_secret_type(t) is AnthropicApiKey) == (t is AnthropicApiKey),
        (spec_managed_secret_type(t) is AnthropicBedrockAccessKey) == (t is AnthropicBedrockAccessKey),
        (spec_managed_secret_type(t) is AnthropicBedrockApiKey) == (t is AnthropicBedrockApiKey),
        (spec_managed_secret_type(t) is Dotenvx) == (t is Dotenvx),
        (spec_managed_secret_type(t) is RawValue) == (t is RawValue),
        spec_managed_secret_type(t) == spec_managed_secret_type(other) ==> t == other,
{
}

/// Every listed secret keeps what the server said of it: its name, description,
/// times, owner and kind.
pub proof fn law_listed_secrets_follow_server(v: Seq<GqlManagedSecret>)
    ensures
        ({
            let out = v.map_values(|s: GqlManagedSecret| spec_managed_secret(s));
            &&& out.len() == v.len()
            &&& forall|i: int| 0 <= i < out.len() ==> {
                &&& (#[trigger] out[i]).name == v[i].name
                &&& out[i].description == v[i].description
                &&& out[i].created_at == v[i].created_at
                &&& out[i].updated_at == v[i].updated_at
                &&& out[i].owner.uid == v[i].owner_uid
                &&& (out[i].owner.type_ is Team) == (v[i].owner_type is Team)
                &&& (out[i].type_ is AnthropicApiKey) == (v[i].type_ is AnthropicApiKey)
                &&& (out[i].type_ is AnthropicBedrockAccessKey) == (v[i].type_ is AnthropicBedrockAccessKey)
                &&& (out[i].type_ is AnthropicBedrockApiKey) == (v[i].type_ is AnthropicBedrockApiKey)
                &&& (out[i].type_ is Dotenvx) == (v[i].type_ is Dotenvx)
                &&& (out[i].type_ is RawValue) == (v[i].type_ is RawValue)
            }
        }),
{
}

} // verus!
