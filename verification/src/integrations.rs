//! Integrations: the results the server API hands back, how GraphQL responses
//! become those results, and what this build's client answers.
use vstd::prelude::*;
use crate::server::{GqlResult, ServerApiError, ServerTimestamp, UserFacingError};
use crate::text::string_push;

verus! {

/// Access to one repository.
#[derive(Debug, Clone, Copy, PartialEq, Eq)]
pub enum UserRepoAuthStatusEnum {
    NoInstallationOrAccessForRepo,
    UserNotConnectedToGithub,
    Success,
}

/// The user's access to one repository.
#[derive(Debug, PartialEq, Eq)]
pub struct UserRepoAuthStatus {
    pub owner: String,
    pub repo: String,
    pub status: UserRepoAuthStatusEnum,
    pub is_public: bool,
}

/// The user's access to a list of repositories, with a sign-in link when needed.
#[derive(Debug, PartialEq, Eq)]
pub struct UserRepoAuthStatusOutput {
    pub statuses: Vec<UserRepoAuthStatus>,
    pub auth_url: Option<String>,
    pub tx_id: Option<String>,
}

/// The result of creating or updating a simple integration.
#[derive(Debug, PartialEq, Eq)]
pub struct CreateSimpleIntegrationOutput {
    pub auth_url: Option<String>,
    pub success: bool,
    pub message: String,
    pub tx_id: Option<String>,
}

/// The state of an integration's connection.
#[derive(Clone, Copy, Debug, PartialEq, Eq)]
pub enum SimpleIntegrationConnectionStatus {
    NotConnected,
    ConnectionError,
    IntegrationNotConfigured,
    NotEnabled,
    Active,
}

/// How a listed integration is configured.
#[derive(Clone, Debug, PartialEq, Eq)]
pub struct ListedSimpleIntegrationConfig {
    pub environment_uid: String,
    pub base_prompt: String,
    pub model_id: String,
    pub mcp_servers_json: String,
}

/// A listed integration.
#[derive(Clone, Debug, PartialEq, Eq)]
pub struct SimpleIntegration {
    pub provider_slug: String,
    pub description: String,
    pub connection_status: SimpleIntegrationConnectionStatus,
    pub integration_config: Option<ListedSimpleIntegrationConfig>,
    pub created_at: Option<ServerTimestamp>,
    pub updated_at: Option<ServerTimestamp>,
}

/// The listed integrations, with a message from the server.
#[derive(Clone, Debug, PartialEq, Eq)]
pub struct SimpleIntegrationsOutput {
    pub integrations: Vec<SimpleIntegration>,
    pub message: Option<String>,
}

/// The state of an OAuth connect transaction.
#[derive(Clone, Copy, Debug, PartialEq, Eq)]
pub enum OauthConnectTxStatus {
    Completed,
    Expired,
    Failed,
    InProgress,
    Pending,
}

/// The providers whose integrations use an environment.
#[derive(Clone, Debug, PartialEq, Eq)]
pub struct GetIntegrationsUsingEnvironmentOutput {
    pub provider_names: Vec<String>,
}

/// A repository the GitHub app is installed on.
#[derive(Clone, Debug, PartialEq, Eq)]
pub struct GithubRepoResult {
    pub owner: String,
    pub repo: String,
    pub is_public: bool,
}

/// The user is connected to GitHub.
#[derive(Clone, Debug, PartialEq, Eq)]
pub struct GithubConnectedOutput {
    pub username: Option<String>,
    pub installed_repos: Vec<GithubRepoResult>,
    pub app_install_link: String,
}

/// The user must sign in to GitHub first.
#[derive(Clone, Debug, PartialEq, Eq)]
pub struct GithubAuthRequiredOutput {
    pub auth_url: String,
    pub tx_id: String,
    pub app_install_link: String,
}

/// What the server knows of the user's GitHub account.
#[derive(Clone, Debug, PartialEq, Eq)]
pub enum UserGithubInfoResult {
    GithubConnectedOutput(GithubConnectedOutput),
    GithubAuthRequiredOutput(GithubAuthRequiredOutput),
    Unknown,
}

/// Suggesting a cloud image needs a GitHub sign-in first.
#[derive(Debug, PartialEq, Eq)]
pub struct SuggestCloudEnvironmentImageAuthRequiredOutput {
    pub auth_url: String,
    pub tx_id: String,
}

/// Bounds that an integrations client meets on every platform.
pub trait IntegrationsClientBounds {}

/// Repository access as the GraphQL response states it.
#[derive(Debug, Clone, Copy, PartialEq, Eq)]
pub enum GqlUserRepoAuthStatusEnum {
    NoInstallationOrAccessForRepo,
    UserNotConnectedToGithub,
    Success,
}

/// One repository's access as the GraphQL response states it.
#[derive(Debug, PartialEq, Eq)]
pub struct GqlUserRepoAuthStatus {
    pub owner: String,
    pub repo: String,
    pub status: GqlUserRepoAuthStatusEnum,
    pub is_public: bool,
}

/// The GraphQL response to a repository access check.
#[derive(Debug, PartialEq, Eq)]
pub struct GqlUserRepoAuthStatusOutput {
    pub statuses: Vec<GqlUserRepoAuthStatus>,
    pub auth_url: Option<String>,
    pub tx_id: Option<String>,
}

pub open spec fn spec_user_repo_auth_status(status: GqlUserRepoAuthStatusEnum) -> UserRepoAuthStatusEnum {
    match status {
        GqlUserRepoAuthStatusEnum::NoInstallationOrAccessForRepo => UserRepoAuthStatusEnum::NoInstallationOrAccessForRepo,
        GqlUserRepoAuthStatusEnum::UserNotConnectedToGithub => UserRepoAuthStatusEnum::UserNotConnectedToGithub,
        GqlUserRepoAuthStatusEnum::Success => UserRepoAuthStatusEnum::Success,
    }
}

/// Maps the GraphQL access state to the client's.
pub fn user_repo_auth_status(status: GqlUserRepoAuthStatusEnum) -> (r: UserRepoAuthStatusEnum)
    ensures
        r == spec_user_repo_auth_status(status),
{
    match status {
        GqlUserRepoAuthStatusEnum::NoInstallationOrAccessForRepo => UserRepoAuthStatusEnum::NoInstallationOrAccessForRepo,
        GqlUserRepoAuthStatusEnum::UserNotConnectedToGithub => UserRepoAuthStatusEnum::UserNotConnectedToGithub,
        GqlUserRepoAuthStatusEnum::Success => UserRepoAuthStatusEnum::Success,
    }
}

pub open spec fn spec_repo_status_entry(g: GqlUserRepoAuthStatus) -> UserRepoAuthStatus {
    UserRepoAuthStatus {
        owner: g.owner,
        repo: g.repo,
        status: spec_user_repo_auth_status(g.status),
        is_public: g.is_public,
    }
}

/// Maps a GraphQL repository access response to the client's, entry by entry.
pub fn user_repo_auth_status_output(output: GqlUserRepoAuthStatusOutput) -> (r: UserRepoAuthStatusOutput)
    ensures
        r.statuses@ == output.statuses@.map_values(|g: GqlUserRepoAuthStatus| spec_repo_status_entry(g)),
        r.auth_url == output.auth_url,
        r.tx_id == output.tx_id,
{
    let GqlUserRepoAuthStatusOutput { statuses, auth_url, tx_id } = output;
    let ghost all = statuses@;
    let mut converted: Vec<UserRepoAuthStatus> = Vec::new();
    for g in it: statuses
        invariant
            all == it.seq(),
            converted@ == it.seq().subrange(0, it.index() as int).map_values(|g: GqlUserRepoAuthStatus| spec_repo_status_entry(g)),
    {
        let entry = UserRepoAuthStatus {
            owner: g.owner,
            repo: g.repo,
            status: user_repo_auth_status(g.status),
            is_public: g.is_public,
        };
        converted.push(entry);
        proof {
            assert(it.seq().subrange(0, it.index() + 1) =~= it.seq().subrange(0, it.index() as int).push(g));
        }
    }
    UserRepoAuthStatusOutput { statuses: converted, auth_url, tx_id }
}

} // verus!

verus! {

/// The GraphQL response to creating or updating a simple integration.
#[derive(Debug, PartialEq, Eq)]
pub struct GqlCreateSimpleIntegrationOutput {
    pub auth_url: Option<String>,
    pub success: bool,
    pub message: String,
    pub tx_id: Option<String>,
}

/// Maps the GraphQL create/update response to the client's.
pub fn create_simple_integration_output(output: GqlCreateSimpleIntegrationOutput) -> (r: CreateSimpleIntegrationOutput)
    ensures
        r == (CreateSimpleIntegrationOutput {
            auth_url: output.auth_url,
            success: output.success,
            message: output.message,
            tx_id: output.tx_id,
        }),
{
    CreateSimpleIntegrationOutput {
        auth_url: output.auth_url,
        success: output.success,
        message: output.message,
        tx_id: output.tx_id,
    }
}

/// An integration's connection state as the GraphQL response states it.
#[derive(Clone, Copy, Debug, PartialEq, Eq)]
pub enum GqlSimpleIntegrationConnectionStatus {
    NotConnected,
    ConnectionError,
    IntegrationNotConfigured,
    NotEnabled,
    Active,
}

pub open spec fn spec_connection_status(status: GqlSimpleIntegrationConnectionStatus) -> SimpleIntegrationConnectionStatus {
    match status {
        GqlSimpleIntegrationConnectionStatus::NotConnected => SimpleIntegrationConnectionStatus::NotConnected,
        GqlSimpleIntegrationConnectionStatus::ConnectionError => SimpleIntegrationConnectionStatus::ConnectionError,
        GqlSimpleIntegrationConnectionStatus::IntegrationNotConfigured => SimpleIntegrationConnectionStatus::IntegrationNotConfigured,
        GqlSimpleIntegrationConnectionStatus::NotEnabled => SimpleIntegrationConnectionStatus::NotEnabled,
        GqlSimpleIntegrationConnectionStatus::Active => SimpleIntegrationConnectionStatus::Active,
    }
}

/// Maps the GraphQL connection state to the client's.
pub fn simple_integration_connection_status(status: GqlSimpleIntegrationConnectionStatus) -> (r: SimpleIntegrationConnectionStatus)
    ensures
        r == spec_connection_status(status),
{
    match status {
        GqlSimpleIntegrationConnectionStatus::NotConnected => SimpleIntegrationConnectionStatus::NotConnected,
        GqlSimpleIntegrationConnectionStatus::ConnectionError => SimpleIntegrationConnectionStatus::ConnectionError,
        GqlSimpleIntegrationConnectionStatus::IntegrationNotConfigured => SimpleIntegrationConnectionStatus::IntegrationNotConfigured,
        GqlSimpleIntegrationConnectionStatus::NotEnabled => SimpleIntegrationConnectionStatus::NotEnabled,
        GqlSimpleIntegrationConnectionStatus::Active => SimpleIntegrationConnectionStatus::Active,
    }
}

/// An integration's configuration as the GraphQL response states it.
#[derive(Clone, Debug, PartialEq, Eq)]
pub struct GqlSimpleIntegrationConfig {
    pub environment_uid: String,
    pub base_prompt: String,
    pub model_id: String,
    pub mcp_servers_json: String,
}

/// A listed integration as the GraphQL response states it; its timestamps are
/// read as microseconds, which always round-trip.
#[derive(Clone, Debug, PartialEq, Eq)]
pub struct GqlSimpleIntegration {
    pub provider_slug: String,
    pub description: String,
    pub connection_status: GqlSimpleIntegrationConnectionStatus,
    pub integration_config: Option<GqlSimpleIntegrationConfig>,
    pub created_at: Option<ServerTimestamp>,
    pub updated_at: Option<ServerTimestamp>,
}

/// The GraphQL response listing integrations.
#[derive(Clone, Debug, PartialEq, Eq)]
pub struct GqlSimpleIntegrationsOutput {
    pub integrations: Vec<GqlSimpleIntegration>,
    pub message: Option<String>,
}

pub open spec fn spec_simple_integration(i: GqlSimpleIntegration) -> SimpleIntegration {
    SimpleIntegration {
        provider_slug: i.provider_slug,
        description: i.description,
        connection_status: spec_connection_status(i.connection_status),
        integration_config: match i.integration_config {
            Some(c) => Some(ListedSimpleIntegrationConfig {
                environment_uid: c.environment_uid,
                base_prompt: c.base_prompt,
                model_id: c.model_id,
                mcp_servers_json: c.mcp_servers_json,
            }),
            None => None,
        },
        created_at: i.created_at,
        updated_at: i.updated_at,
    }
}

/// Maps one listed GraphQL integration to the client's.
pub fn simple_integration(integration: GqlSimpleIntegration) -> (r: SimpleIntegration)
    ensures
        r == spec_simple_integration(integration),
{
    let GqlSimpleIntegration { provider_slug, description, connection_status, integration_config, created_at, updated_at } = integration;
    let integration_config = match integration_config {
        Some(config) => Some(ListedSimpleIntegrationConfig {
            environment_uid: config.environment_uid,
            base_prompt: config.base_prompt,
            model_id: config.model_id,
            mcp_servers_json: config.mcp_servers_json,
        }),
        None => None,
    };
    SimpleIntegration {
        provider_slug,
        description,
        connection_status: simple_integration_connection_status(connection_status),
        integration_config,
        created_at,
        updated_at,
    }
}

/// Maps the GraphQL list of integrations to the client's, in order.
pub fn simple_integrations_output(output: GqlSimpleIntegrationsOutput) -> (r: SimpleIntegrationsOutput)
    ensures
        r.integrations@ == output.integrations@.map_values(|i: GqlSimpleIntegration| spec_simple_integration(i)),
        r.message == output.message,
{
    let GqlSimpleIntegrationsOutput { integrations, message } = output;
    let ghost all = integrations@;
    let mut converted: Vec<SimpleIntegration> = Vec::new();
    for i in it: integrations
        invariant
            all == it.seq(),
            converted@ == it.seq().subrange(0, it.index() as int).map_values(|i: GqlSimpleIntegration| spec_simple_integration(i)),
    {
        converted.push(simple_integration(i));
        proof {
            assert(it.seq().subrange(0, it.index() + 1) =~= it.seq().subrange(0, it.index() as int).push(i));
        }
    }
    SimpleIntegrationsOutput { integrations: converted, message }
}

/// An OAuth transaction's state as the GraphQL response states it.
#[derive(Clone, Copy, Debug, PartialEq, Eq)]
pub enum GqlOauthConnectTxStatus {
    Completed,
    Expired,
    Failed,
    InProgress,
    Pending,
}

/// Maps the GraphQL OAuth state to the client's.
pub fn oauth_connect_tx_status(status: GqlOauthConnectTxStatus) -> (r: OauthConnectTxStatus)
    ensures
        r == match status {
            GqlOauthConnectTxStatus::Completed => OauthConnectTxStatus::Completed,
            GqlOauthConnectTxStatus::Expired => OauthConnectTxStatus::Expired,
            GqlOauthConnectTxStatus::Failed => OauthConnectTxStatus::Failed,
            GqlOauthConnectTxStatus::InProgress => OauthConnectTxStatus::InProgress,
            GqlOauthConnectTxStatus::Pending => OauthConnectTxStatus::Pending,
        },
{
    match status {
        GqlOauthConnectTxStatus::Completed => OauthConnectTxStatus::Completed,
        GqlOauthConnectTxStatus::Expired => OauthConnectTxStatus::Expired,
        GqlOauthConnectTxStatus::Failed => OauthConnectTxStatus::Failed,
        GqlOauthConnectTxStatus::InProgress => OauthConnectTxStatus::InProgress,
        GqlOauthConnectTxStatus::Pending => OauthConnectTxStatus::Pending,
    }
}

/// A repository the GitHub app is installed on, as the GraphQL response states it.
#[derive(Clone, Debug, PartialEq, Eq)]
pub struct GqlGithubRepo {
    pub owner: String,
    pub repo: String,
    pub is_public: bool,
}

/// The client's repository for a GraphQL one: the same owner, name and visibility.
pub open spec fn spec_github_repo(g: GqlGithubRepo) -> GithubRepoResult {
    GithubRepoResult { owner: g.owner, repo: g.repo, is_public: g.is_public }
}

/// Maps the GraphQL repositories to the client's, in order.
pub fn github_repo_results(repos: Vec<GqlGithubRepo>) -> (r: Vec<GithubRepoResult>)
    ensures
        r@ == repos@.map_values(|g: GqlGithubRepo| spec_github_repo(g)),
{
    let mut out: Vec<GithubRepoResult> = Vec::new();
    let mut i: usize = 0;
    while i < repos.len()
        invariant
            i <= repos@.len(),
            out@ == repos@.subrange(0, i as int).map_values(|g: GqlGithubRepo| spec_github_repo(g)),
        decreases repos@.len() - i,
    {
        let g = &repos[i];
        out.push(GithubRepoResult { owner: g.owner.clone(), repo: g.repo.clone(), is_public: g.is_public });
        proof {
            assert(repos@.subrange(0, i + 1).map_values(|g: GqlGithubRepo| spec_github_repo(g))
                =~= repos@.subrange(0, i as int).map_values(|g: GqlGithubRepo| spec_github_repo(g)).push(spec_github_repo(repos@[i as int])));
        }
        i = i + 1;
    }
    proof {
        assert(repos@.subrange(0, repos@.len() as int) =~= repos@);
    }
    out
}

/// What the GraphQL response says of the user's GitHub account.
#[derive(Clone, Debug, PartialEq, Eq)]
pub enum GqlUserGithubInfoResult {
    GithubConnectedOutput { username: Option<String>, installed_repos: Vec<GqlGithubRepo>, app_install_link: String },
    GithubAuthRequiredOutput { auth_url: String, tx_id: String, app_install_link: String },
    Unknown,
}

/// Maps the GraphQL GitHub account answer to the client's, each installed
/// repository field by field.
pub fn user_github_info_result(result: GqlUserGithubInfoResult) -> (r: UserGithubInfoResult)
    ensures
        match result {
            GqlUserGithubInfoResult::GithubConnectedOutput { username, installed_repos, app_install_link } =>
                r matches UserGithubInfoResult::GithubConnectedOutput(o)
                    && o.username == username
                    && o.installed_repos@ == installed_repos@.map_values(|g: GqlGithubRepo| spec_github_repo(g))
                    && o.app_install_link == app_install_link,
            GqlUserGithubInfoResult::GithubAuthRequiredOutput { auth_url, tx_id, app_install_link } =>
                r == UserGithubInfoResult::GithubAuthRequiredOutput(GithubAuthRequiredOutput { auth_url, tx_id, app_install_link }),
            GqlUserGithubInfoResult::Unknown => r == UserGithubInfoResult::Unknown,
        },
{
    match result {
        GqlUserGithubInfoResult::GithubConnectedOutput { username, installed_repos, app_install_link } =>
            UserGithubInfoResult::GithubConnectedOutput(GithubConnectedOutput {
                username,
                installed_repos: github_repo_results(installed_repos),
                app_install_link,
            }),
        GqlUserGithubInfoResult::GithubAuthRequiredOutput { auth_url, tx_id, app_install_link } =>
            UserGithubInfoResult::GithubAuthRequiredOutput(GithubAuthRequiredOutput { auth_url, tx_id, app_install_link }),
        GqlUserGithubInfoResult::Unknown => UserGithubInfoResult::Unknown,
    }
}

/// Maps the GraphQL "sign in first" answer of the image suggestion to the client's.
pub fn suggest_cloud_environment_image_auth_required_output(auth_url: String, tx_id: String) -> (r: SuggestCloudEnvironmentImageAuthRequiredOutput)
    ensures
        r == (SuggestCloudEnvironmentImageAuthRequiredOutput { auth_url, tx_id }),
{
    SuggestCloudEnvironmentImageAuthRequiredOutput { auth_url, tx_id }
}

/// The client's answer to a repository access check from the server's response
/// (`None` when the server's answer is not one the client knows).
pub fn check_user_repo_auth_status_response(response: Option<GqlUserRepoAuthStatusOutput>) -> (r: Result<UserRepoAuthStatusOutput, ServerApiError>)
    ensures
        match response {
            Some(o) => r matches Ok(out) && out.statuses@ == o.statuses@.map_values(|g: GqlUserRepoAuthStatus| spec_repo_status_entry(g))
                && out.auth_url == o.auth_url && out.tx_id == o.tx_id,
            None => r matches Err(err) && err.message@ == "Failed to check GitHub auth status: unknown response"@,
        },
{
    match response {
        Some(o) => Ok(user_repo_auth_status_output(o)),
        None => Err(ServerApiError { message: String::from_str("Failed to check GitHub auth status: unknown response") }),
    }
}

/// The client's answer to creating or updating an integration from the server's response.
pub fn create_or_update_simple_integration_response(response: GqlResult<GqlCreateSimpleIntegrationOutput>) -> (r: Result<CreateSimpleIntegrationOutput, ServerApiError>)
    ensures
        match response {
            GqlResult::Output(o) => r == Ok::<CreateSimpleIntegrationOutput, ServerApiError>(CreateSimpleIntegrationOutput {
                auth_url: o.auth_url,
                success: o.success,
                message: o.message,
                tx_id: o.tx_id,
            }),
            GqlResult::UserFacingError(e) => r matches Err(err) && err.message@ == e.message@,
            GqlResult::Unknown => r matches Err(err) && err.message@ == "Unknown error while creating integration"@,
        },
{
    match response {
        GqlResult::Output(o) => Ok(create_simple_integration_output(o)),
        GqlResult::UserFacingError(e) => Err(ServerApiError { message: e.message }),
        GqlResult::Unknown => Err(ServerApiError { message: String::from_str("Unknown error while creating integration") }),
    }
}

/// The client's list of integrations from the server's response.
pub fn list_simple_integrations_response(response: GqlResult<GqlSimpleIntegrationsOutput>) -> (r: Result<SimpleIntegrationsOutput, ServerApiError>)
    ensures
        match response {
            GqlResult::Output(o) => r matches Ok(out)
                && out.integrations@ == o.integrations@.map_values(|i: GqlSimpleIntegration| spec_simple_integration(i))
                && out.message == o.message,
            GqlResult::UserFacingError(e) => r matches Err(err) && err.message@ == e.message@,
            GqlResult::Unknown => r matches Err(err) && err.message@ == "Unknown error while listing simple integrations"@,
        },
{
    match response {
        GqlResult::Output(o) => Ok(simple_integrations_output(o)),
        GqlResult::UserFacingError(e) => Err(ServerApiError { message: e.message }),
        GqlResult::Unknown => Err(ServerApiError { message: String::from_str("Unknown error while listing simple integrations") }),
    }
}

/// The client's OAuth state from the server's response.
pub fn poll_oauth_connect_status_response(response: GqlResult<GqlOauthConnectTxStatus>) -> (r: Result<OauthConnectTxStatus, ServerApiError>)
    ensures
        match response {
            GqlResult::Output(s) => r matches Ok(st) && st == oauth_status_of(s),
            GqlResult::UserFacingError(e) => r matches Err(err) && err.message@ == e.message@,
            GqlResult::Unknown => r matches Err(err) && err.message@ == "Unknown error while polling OAuth status"@,
        },
{
    match response {
        GqlResult::Output(s) => Ok(oauth_connect_tx_status(s)),
        GqlResult::UserFacingError(e) => Err(ServerApiError { message: e.message }),
        GqlResult::Unknown => Err(ServerApiError { message: String::from_str("Unknown error while polling OAuth status") }),
    }
}

pub open spec fn oauth_status_of(status: GqlOauthConnectTxStatus) -> OauthConnectTxStatus {
    match status {
        GqlOauthConnectTxStatus::Completed => OauthConnectTxStatus::Completed,
        GqlOauthConnectTxStatus::Expired => OauthConnectTxStatus::Expired,
        GqlOauthConnectTxStatus::Failed => OauthConnectTxStatus::Failed,
        GqlOauthConnectTxStatus::InProgress => OauthConnectTxStatus::InProgress,
        GqlOauthConnectTxStatus::Pending => OauthConnectTxStatus::Pending,
    }
}

/// The client's list of providers that use an environment, from the server's response.
pub fn get_integrations_using_environment_response(response: GqlResult<Vec<String>>) -> (r: Result<GetIntegrationsUsingEnvironmentOutput, ServerApiError>)
    ensures
        match response {
            GqlResult::Output(names) => r == Ok::<GetIntegrationsUsingEnvironmentOutput, ServerApiError>(GetIntegrationsUsingEnvironmentOutput { provider_names: names }),
            GqlResult::UserFacingError(e) => r matches Err(err) && err.message@ == e.message@,
            GqlResult::Unknown => r matches Err(err) && err.message@ == "Unknown error while getting integrations using environment"@,
        },
{
    match response {
        GqlResult::Output(names) => Ok(GetIntegrationsUsingEnvironmentOutput { provider_names: names }),
        GqlResult::UserFacingError(e) => Err(ServerApiError { message: e.message }),
        GqlResult::Unknown => Err(ServerApiError {
            message: String::from_str("Unknown error while getting integrations using environment"),
        }),
    }
}

/// The GitHub account answer the client gives: either the account is
/// connected or it must sign in first; any other answer of the server is an
/// error. When GitHub sign-out is being simulated a connected account is
/// reported as needing sign-in at `{server_root_url}/oauth/connect/github`.
pub fn get_user_github_info_response(
    result: GqlUserGithubInfoResult,
    simulate_github_unauthed: bool,
    server_root_url: &str,
) -> (r: Result<UserGithubInfoResult, ServerApiError>)
    ensures
        match result {
            GqlUserGithubInfoResult::GithubConnectedOutput { username, installed_repos, app_install_link } =>
                if simulate_github_unauthed {
                    r matches Ok(UserGithubInfoResult::GithubAuthRequiredOutput(o))
                        && o.auth_url@ == server_root_url@ + "/oauth/connect/github"@
                        && o.tx_id@ == "simulated"@
                        && o.app_install_link == app_install_link
                } else {
                    r matches Ok(UserGithubInfoResult::GithubConnectedOutput(o))
                        && o.username == username
                        && o.installed_repos@ == installed_repos@.map_values(|g: GqlGithubRepo| spec_github_repo(g))
                        && o.app_install_link == app_install_link
                },
            GqlUserGithubInfoResult::GithubAuthRequiredOutput { auth_url, tx_id, app_install_link } =>
                r == Ok::<UserGithubInfoResult, ServerApiError>(
                    UserGithubInfoResult::GithubAuthRequiredOutput(GithubAuthRequiredOutput { auth_url, tx_id, app_install_link }),
                ),
            GqlUserGithubInfoResult::Unknown => r matches Err(e) && e.message@ == "Unknown response from userGithubInfo query"@,
        },
{
    let converted = user_github_info_result(result);
    match converted {
        UserGithubInfoResult::GithubConnectedOutput(connected) => {
            if simulate_github_unauthed {
                let mut auth_url = String::from_str(server_root_url);
                auth_url.append("/oauth/connect/github");
                Ok(UserGithubInfoResult::GithubAuthRequiredOutput(GithubAuthRequiredOutput {
                    auth_url,
                    tx_id: String::from_str("simulated"),
                    app_install_link: connected.app_install_link,
                }))
            } else {
                Ok(UserGithubInfoResult::GithubConnectedOutput(connected))
            }
        },
        UserGithubInfoResult::GithubAuthRequiredOutput(o) => Ok(UserGithubInfoResult::GithubAuthRequiredOutput(o)),
        UserGithubInfoResult::Unknown => Err(ServerApiError { message: String::from_str("Unknown response from userGithubInfo query") }),
    }
}

/// The message of integration calls this build cannot make.
pub open spec fn integrations_unavailable_message() -> Seq<char> {
    "Integration server APIs are not available in this build"@
}

/// The error of integration calls this build cannot make.
pub fn integrations_unavailable<T>() -> (r: Result<T, ServerApiError>)
    ensures
        r matches Err(e) && e.message@ == integrations_unavailable_message(),
{
    Err(ServerApiError { message: String::from_str("Integration server APIs are not available in this build") })
}

/// This build's answer to a repository access check: no statuses, no link.
pub fn oss_check_user_repo_auth_status(repos: Vec<(String, String)>) -> (r: Result<UserRepoAuthStatusOutput, ServerApiError>)
    ensures
        r matches Ok(o) && o.statuses@.len() == 0 && o.auth_url is None && o.tx_id is None,
{
    Ok(UserRepoAuthStatusOutput { statuses: Vec::new(), auth_url: None, tx_id: None })
}

/// This build cannot create or update integrations.
pub fn oss_create_or_update_simple_integration(integration_type: String, is_update: bool) -> (r: Result<CreateSimpleIntegrationOutput, ServerApiError>)
    ensures
        r matches Err(e) && e.message@ == integrations_unavailable_message(),
{
    integrations_unavailable()
}

/// This build lists no integrations.
pub fn oss_list_simple_integrations(providers: Vec<String>) -> (r: Result<SimpleIntegrationsOutput, ServerApiError>)
    ensures
        r matches Ok(o) && o.integrations@.len() == 0 && o.message is None,
{
    Ok(SimpleIntegrationsOutput { integrations: Vec::new(), message: None })
}

/// Every OAuth transaction has failed in this build.
pub fn oss_poll_oauth_connect_status(tx_id: String) -> (r: Result<OauthConnectTxStatus, ServerApiError>)
    ensures
        r == Ok::<OauthConnectTxStatus, ServerApiError>(OauthConnectTxStatus::Failed),
{
    Ok(OauthConnectTxStatus::Failed)
}

/// No integration uses any environment in this build.
pub fn oss_get_integrations_using_environment(environment_id: String) -> (r: Result<GetIntegrationsUsingEnvironmentOutput, ServerApiError>)
    ensures
        r matches Ok(o) && o.provider_names@.len() == 0,
{
    Ok(GetIntegrationsUsingEnvironmentOutput { provider_names: Vec::new() })
}

/// The GitHub account cannot be asked for in this build.
pub fn oss_get_user_github_info() -> (r: Result<UserGithubInfoResult, ServerApiError>)
    ensures
        r matches Err(e) && e.message@ == integrations_unavailable_message(),
{
    integrations_unavailable()
}

/// A repository named in an access check.
#[derive(Clone, Debug, PartialEq, Eq)]
pub struct GqlRepoInput {
    pub owner: String,
    pub repo: String,
}

/// The repositories of an access check, each `(owner, repo)` pair in order.
pub fn repo_auth_status_inputs(repos: Vec<(String, String)>) -> (v: Vec<GqlRepoInput>)
    ensures
        v@.len() == repos@.len(),
        forall|i: int| 0 <= i < repos@.len() ==> (#[trigger] v@[i]).owner == repos@[i].0 && v@[i].repo == repos@[i].1,
{
    let ghost rs = repos@;
    let mut v: Vec<GqlRepoInput> = Vec::new();
    for pair in it: repos
        invariant
            rs == it.seq(),
            v@.len() == it.index(),
            forall|i: int| 0 <= i < it.index() ==> (#[trigger] v@[i]).owner == rs[i].0 && v@[i].repo == rs[i].1,
    {
        let (owner, repo) = pair;
        v.push(GqlRepoInput { owner, repo });
    }
    v
}

/// The configuration sent when an integration is created or updated.
#[derive(Clone, Debug, PartialEq, Eq)]
pub struct GqlSimpleIntegrationConfigInput {
    pub base_prompt: Option<String>,
    pub environment_uid: Option<String>,
    pub model_id: Option<String>,
    pub mcp_servers_json: Option<String>,
    pub remove_mcp_server_names: Option<Vec<String>>,
    pub worker_host: Option<String>,
}

/// What a request to create or update an integration sends.
#[derive(Clone, Debug, PartialEq, Eq)]
pub struct GqlCreateSimpleIntegrationInput {
    pub config: GqlSimpleIntegrationConfigInput,
    pub enabled: bool,
    pub integration_type: String,
    pub is_update: bool,
}

/// The request to create or update an integration, with everything as given.
pub fn create_simple_integration_input(
    integration_type: String,
    is_update: bool,
    environment_uid: Option<String>,
    base_prompt: Option<String>,
    model_id: Option<String>,
    mcp_servers_json: Option<String>,
    remove_mcp_server_names: Option<Vec<String>>,
    worker_host: Option<String>,
    enabled: bool,
) -> (i: GqlCreateSimpleIntegrationInput)
    ensures
        i == (GqlCreateSimpleIntegrationInput {
            config: GqlSimpleIntegrationConfigInput {
                base_prompt,
                environment_uid,
                model_id,
                mcp_servers_json,
                remove_mcp_server_names,
                worker_host,
            },
            enabled,
            integration_type,
            is_update,
        }),
{
    GqlCreateSimpleIntegrationInput {
        config: GqlSimpleIntegrationConfigInput {
            base_prompt,
            environment_uid,
            model_id,
            mcp_servers_json,
            remove_mcp_server_names,
            worker_host,
        },
        enabled,
        integration_type,
        is_update,
    }
}

/// The server calls about integrations.
pub trait IntegrationsClient: IntegrationsClientBounds {
    fn check_user_repo_auth_status(&self, repos: Vec<(String, String)>) -> Result<UserRepoAuthStatusOutput, ServerApiError>;

    fn create_or_update_simple_integration(
        &self,
        integration_type: String,
        is_update: bool,
        environment_uid: Option<String>,
        base_prompt: Option<String>,
        model_id: Option<String>,
        mcp_servers_json: Option<String>,
        remove_mcp_server_names: Option<Vec<String>>,
        worker_host: Option<String>,
        enabled: bool,
    ) -> Result<CreateSimpleIntegrationOutput, ServerApiError>;

    fn list_simple_integrations(&self, providers: Vec<String>) -> Result<SimpleIntegrationsOutput, ServerApiError>;

    fn poll_oauth_connect_status(&self, tx_id: String) -> Result<OauthConnectTxStatus, ServerApiError>;

    fn get_integrations_using_environment(&self, environment_id: String) -> Result<GetIntegrationsUsingEnvironmentOutput, ServerApiError>;

    fn get_user_github_info(&self) -> Result<UserGithubInfoResult, ServerApiError>;
}

/// The integration calls of this build.
pub struct OssIntegrationsClient;

impl IntegrationsClientBounds for OssIntegrationsClient {}

impl IntegrationsClient for OssIntegrationsClient {
    fn check_user_repo_auth_status(&self, repos: Vec<(String, String)>) -> (r: Result<UserRepoAuthStatusOutput, ServerApiError>)
        ensures
            r matches Ok(o) && o.statuses@.len() == 0 && o.auth_url is None && o.tx_id is None,
    {
        oss_check_user_repo_auth_status(repos)
    }

    fn create_or_update_simple_integration(
        &self,
        integration_type: String,
        is_update: bool,
        environment_uid: Option<String>,
        base_prompt: Option<String>,
        model_id: Option<String>,
        mcp_servers_json: Option<String>,
        remove_mcp_server_names: Option<Vec<String>>,
        worker_host: Option<String>,
        enabled: bool,
    ) -> (r: Result<CreateSimpleIntegrationOutput, ServerApiError>)
        ensures
            r matches Err(e) && e.message@ == integrations_unavailable_message(),
    {
        oss_create_or_update_simple_integration(integration_type, is_update)
    }

    fn list_simple_integrations(&self, providers: Vec<String>) -> (r: Result<SimpleIntegrationsOutput, ServerApiError>)
        ensures
            r matches Ok(o) && o.integrations@.len() == 0 && o.message is None,
    {
        oss_list_simple_integrations(providers)
    }

    fn poll_oauth_connect_status(&self, tx_id: String) -> (r: Result<OauthConnectTxStatus, ServerApiError>)
        ensures
            r == Ok::<OauthConnectTxStatus, ServerApiError>(OauthConnectTxStatus::Failed),
    {
        oss_poll_oauth_connect_status(tx_id)
    }

    fn get_integrations_using_environment(&self, environment_id: String) -> (r: Result<GetIntegrationsUsingEnvironmentOutput, ServerApiError>)
        ensures
            r matches Ok(o) && o.provider_names@.len() == 0,
    {
        oss_get_integrations_using_environment(environment_id)
    }

    fn get_user_github_info(&self) -> (r: Result<UserGithubInfoResult, ServerApiError>)
        ensures
            r matches Err(e) && e.message@ == integrations_unavailable_message(),
    {
        oss_get_user_github_info()
    }
}


/// Each repository's access keeps the kind the server gave: the client's state
/// names the same case as the server's, so no two server states become one.
pub proof fn law_repo_auth_status_keeps_kind(status: GqlUserRepoAuthStatusEnum, other: GqlUserRepoAuthStatusEnum)
    ensures
        (spec_user_repo_auth_status(status) is NoInstallationOrAccessForRepo) == (status is NoInstallationOrAccessForRepo),
        (spec_user_repo_auth_status(status) is UserNotConnectedToGithub) == (status is UserNotConnectedToGithub),
        (spec_user_repo_auth_status(status) is Success) == (status is Success),
        spec_user_repo_auth_status(status) == spec_user_repo_auth_status(other) ==> status == other,
{
}

/// The answer to a repository access check lists each repository the server
/// listed, in order, with the same owner, name and visibility and an access
/// state of the same kind.
pub proof fn law_repo_statuses_follow_server(o: GqlUserRepoAuthStatusOutput)
    ensures
        ({
            let out = o.statuses@.map_values(|g: GqlUserRepoAuthStatus| spec_repo_status_entry(g));
            &&& out.len() == o.statuses@.len()
            &&& forall|i: int| 0 <= i < out.len() ==> {
                &&& (#[trigger] out[i]).owner == o.statuses@[i].owner
                &&& out[i].repo == o.statuses@[i].repo
                &&& out[i].is_public == o.statuses@[i].is_public
                &&& (out[i].status is NoInstallationOrAccessForRepo) == (o.statuses@[i].status is NoInstallationOrAccessForRepo)
                &&& (out[i].status is UserNotConnectedToGithub) == (o.statuses@[i].status is UserNotConnectedToGithub)
                &&& (out[i].status is Success) == (o.statuses@[i].status is Success)
            }
        }),
{
}

} // verus!
