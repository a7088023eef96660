use warp_oss_shims::blocks::{
    blocks_owned_by_user_response, save_block_response, unshare_block_response, Block, BlockClient, GqlBlock, OssBlockClient,
    ShareBlockResult, UnshareBlockResult,
};
use warp_oss_shims::integrations::{
    check_user_repo_auth_status_response, create_or_update_simple_integration_response, get_user_github_info_response,
    oss_poll_oauth_connect_status, GithubRepoResult, GqlCreateSimpleIntegrationOutput, GqlGithubRepo, GqlUserGithubInfoResult, GqlUserRepoAuthStatus,
    GqlUserRepoAuthStatusEnum, GqlUserRepoAuthStatusOutput, IntegrationsClient, OauthConnectTxStatus,
    OssIntegrationsClient, UserGithubInfoResult, UserRepoAuthStatusEnum,
};
use warp_oss_shims::managed_secrets::{
    get_task_secrets_response, issue_task_identity_token_input, list_secrets_response, managed_secret_configs_from,
    managed_secret_value, secret_owner_input, GqlManagedSecret, GqlManagedSecretType, GqlManagedSecretValue, GqlOwnerType,
    GqlSpaceType, GqlTaskSecretEntry, GqlTeam, GqlUserSecretConfigs, GqlWorkspace, IdentityTokenOptions,
    ManagedSecretConfig, ManagedSecretOwnerType, ManagedSecretType, ManagedSecretValue, ManagedSecretsClient,
    OssManagedSecretsClient, SecretOwner,
};
use warp_oss_shims::server::{get_user_facing_error_message, GqlResult, GraphQLError, ServerTimestamp, UserFacingError};

fn ts(m: i64) -> ServerTimestamp {
    ServerTimestamp { micros: m }
}

#[test]
fn block_needs_a_start_time() {
    let b = Block::try_from(GqlBlock { uid: "u".to_string(), command: Some("ls".to_string()), time_started_term: Some(ts(5)) }).unwrap();
    assert_eq!(b.id.as_deref(), Some("u"));
    assert_eq!(b.time_completed_term, ts(5));
    let e = Block::try_from(GqlBlock { uid: "u".to_string(), command: None, time_started_term: None }).unwrap_err();
    assert_eq!(e.message, "missing id or time_started_term");
    assert_eq!(blocks_owned_by_user_response(None).unwrap_err().message, "Unable to fetch blocks");
}

#[test]
fn block_share_links_and_errors() {
    let url = save_block_response(ShareBlockResult::ShareBlockOutput { url_ending: "/block/abc".to_string() }, "https://app.warp.dev", true).unwrap();
    assert_eq!(url, "https://app.warp.dev/block/abc?preview=true");
    let url = save_block_response(ShareBlockResult::ShareBlockOutput { url_ending: "/b".to_string() }, "https://x", false).unwrap();
    assert_eq!(url, "https://x/b");
    assert_eq!(save_block_response(ShareBlockResult::Unknown, "r", false).unwrap_err().message, "Failed to share block");
    assert!(unshare_block_response(UnshareBlockResult::UnshareBlockOutput { success: true }).is_ok());
    assert_eq!(
        unshare_block_response(UnshareBlockResult::UnshareBlockOutput { success: false }).unwrap_err().message,
        "Failed to unshare block"
    );
    assert_eq!(
        unshare_block_response(UnshareBlockResult::UserFacingError(UserFacingError { message: "nope".to_string() })).unwrap_err().message,
        "nope"
    );
    let c = OssBlockClient;
    assert!(c.unshare_block("x".to_string()).is_ok());
    assert!(c.blocks_owned_by_user().unwrap().is_empty());
}

#[test]
fn graphql_messages() {
    assert_eq!(get_user_facing_error_message(&GraphQLError::HttpError { status: 500 }), "Server GraphQL APIs are not available in this build");
}

#[test]
fn repo_auth_status_mapping() {
    let out = check_user_repo_auth_status_response(Some(GqlUserRepoAuthStatusOutput {
        statuses: vec![GqlUserRepoAuthStatus {
            owner: "o".to_string(),
            repo: "r".to_string(),
            status: GqlUserRepoAuthStatusEnum::Success,
            is_public: true,
        }],
        auth_url: None,
        tx_id: Some("t".to_string()),
    }))
    .unwrap();
    assert_eq!(out.statuses[0].status, UserRepoAuthStatusEnum::Success);
    assert_eq!(out.tx_id.as_deref(), Some("t"));
    assert_eq!(
        check_user_repo_auth_status_response(None).unwrap_err().message,
        "Failed to check GitHub auth status: unknown response"
    );
    let e = create_or_update_simple_integration_response(GqlResult::<GqlCreateSimpleIntegrationOutput>::Unknown).unwrap_err();
    assert_eq!(e.message, "Unknown error while creating integration");
}

#[test]
fn simulated_unauthed_github() {
    let connected = || GqlUserGithubInfoResult::GithubConnectedOutput {
        username: Some("me".to_string()),
        installed_repos: vec![GqlGithubRepo { owner: "o".to_string(), repo: "r".to_string(), is_public: true }],
        app_install_link: "link".to_string(),
    };
    match get_user_github_info_response(connected(), true, "https://root") {
        Ok(UserGithubInfoResult::GithubAuthRequiredOutput(o)) => {
            assert_eq!(o.auth_url, "https://root/oauth/connect/github");
            assert_eq!(o.tx_id, "simulated");
            assert_eq!(o.app_install_link, "link");
        }
        other => panic!("unexpected {:?}", other),
    }
    match get_user_github_info_response(connected(), false, "r") {
        Ok(UserGithubInfoResult::GithubConnectedOutput(o)) => {
            assert_eq!(o.username, Some("me".to_string()));
            assert_eq!(o.installed_repos, vec![GithubRepoResult { owner: "o".to_string(), repo: "r".to_string(), is_public: true }]);
            assert_eq!(o.app_install_link, "link");
        }
        other => panic!("unexpected {:?}", other),
    }
    assert_eq!(
        get_user_github_info_response(GqlUserGithubInfoResult::Unknown, false, "r").unwrap_err().message,
        "Unknown response from userGithubInfo query"
    );
    assert_eq!(oss_poll_oauth_connect_status("t".to_string()).unwrap(), OauthConnectTxStatus::Failed);
    let c = OssIntegrationsClient;
    assert!(c.get_user_github_info().is_err());
    assert!(c.list_simple_integrations(vec!["slack".to_string()]).unwrap().integrations.is_empty());
    assert_eq!(
        c.create_or_update_simple_integration("github".to_string(), false, None, None, None, None, None, None, true).unwrap_err().message,
        "Integration server APIs are not available in this build"
    );
}

fn secret(name: &str) -> GqlManagedSecret {
    GqlManagedSecret {
        name: name.to_string(),
        description: None,
        created_at: ts(1),
        updated_at: ts(2),
        owner_uid: "team1".to_string(),
        owner_type: GqlSpaceType::Team,
        type_: GqlManagedSecretType::Dotenvx,
    }
}

#[test]
fn secrets_are_mapped_in_order() {
    let v = list_secrets_response(GqlResult::Output(vec![secret("a"), secret("b")])).unwrap();
    assert_eq!(v.len(), 2);
    assert_eq!(v[1].name, "b");
    assert_eq!(v[0].owner.type_, ManagedSecretOwnerType::Team);
    assert_eq!(v[0].type_, ManagedSecretType::Dotenvx);
    assert_eq!(
        list_secrets_response(GqlResult::UserFacingError(UserFacingError { message: "m".to_string() })).unwrap_err().message,
        "m"
    );
    assert_eq!(list_secrets_response(GqlResult::Unknown).unwrap_err().message, "Unknown error while listing managed secrets");
}

#[test]
fn task_secrets_later_name_wins_and_unknown_fails() {
    let entries = vec![
        GqlTaskSecretEntry { name: "k".to_string(), value: GqlManagedSecretValue::ManagedSecretRawValue { value: "1".to_string() } },
        GqlTaskSecretEntry { name: "j".to_string(), value: GqlManagedSecretValue::ManagedSecretAnthropicApiKeyValue { api_key: "x".to_string() } },
        GqlTaskSecretEntry { name: "k".to_string(), value: GqlManagedSecretValue::ManagedSecretRawValue { value: "2".to_string() } },
    ];
    let v = get_task_secrets_response(GqlResult::Output(entries)).unwrap();
    assert_eq!(v.len(), 2);
    let k = v.iter().find(|(n, _)| n == "k").unwrap();
    assert!(matches!(&k.1, ManagedSecretValue::RawValue { value } if value == "2"));
    let bad = vec![GqlTaskSecretEntry { name: "z".to_string(), value: GqlManagedSecretValue::Unknown }];
    match get_task_secrets_response(GqlResult::Output(bad)) {
        Err(e) => assert_eq!(e.message, "Unknown managed secret value type"),
        Ok(_) => panic!("expected an error"),
    }
    match managed_secret_value(GqlManagedSecretValue::Unknown) {
        Err(e) => assert_eq!(e.message, "Unknown managed secret value type"),
        Ok(_) => panic!("expected an error"),
    }
    match get_task_secrets_response(GqlResult::Unknown) {
        Err(e) => assert_eq!(e.message, "Unknown error while getting task secrets"),
        Ok(_) => panic!("expected an error"),
    }
}

#[test]
fn team_configs_collect_across_workspaces() {
    let cfg = |k: &str| Some(ManagedSecretConfig { public_key: k.to_string() });
    let user = GqlUserSecretConfigs {
        managed_secrets: cfg("user"),
        workspaces: vec![
            GqlWorkspace { teams: vec![GqlTeam { uid: "t1".to_string(), managed_secrets: cfg("a") }, GqlTeam { uid: "t2".to_string(), managed_secrets: None }] },
            GqlWorkspace { teams: vec![GqlTeam { uid: "t1".to_string(), managed_secrets: cfg("b") }] },
        ],
    };
    let c = managed_secret_configs_from(user);
    assert_eq!(c.user_secrets, cfg("user"));
    assert_eq!(c.team_secrets.len(), 1);
    assert_eq!(c.team_secrets[0].0, "t1");
    assert_eq!(c.team_secrets[0].1.public_key, "b");
}

#[test]
fn identity_token_duration_must_fit() {
    let ok = issue_task_identity_token_input(IdentityTokenOptions {
        audience: "aud".to_string(),
        requested_duration_secs: 3600,
        subject_template: vec1::Vec1::new("s".to_string()),
    })
    .unwrap();
    assert_eq!(ok.requested_duration_seconds, 3600);
    assert_eq!(ok.subject_template, Some(vec!["s".to_string()]));
    let err = issue_task_identity_token_input(IdentityTokenOptions {
        audience: "aud".to_string(),
        requested_duration_secs: 1u64 << 40,
        subject_template: vec1::Vec1::new("s".to_string()),
    })
    .unwrap_err();
    assert_eq!(err.message, "Requested duration out of bounds");
}

#[test]
fn owner_and_oss_client() {
    let o = secret_owner_input(SecretOwner::Team { team_uid: "t".to_string() });
    assert_eq!(o.type_, GqlOwnerType::Team);
    assert_eq!(o.uid.as_deref(), Some("t"));
    let o = secret_owner_input(SecretOwner::CurrentUser);
    assert_eq!(o.uid, None);
    let c = OssManagedSecretsClient;
    assert!(c.list_secrets().unwrap().is_empty());
    assert!(c.delete_managed_secret(SecretOwner::CurrentUser, "n".to_string()).is_ok());
    assert_eq!(
        c.update_managed_secret(SecretOwner::CurrentUser, "n".to_string(), None, None).unwrap_err().message,
        "Managed secrets server APIs are not available in this build"
    );
}
