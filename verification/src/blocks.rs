//! Sharing terminal blocks: the block model, what the server's answers mean, and
//! what this build's client answers.
use vstd::prelude::*;
use crate::server::{ServerApiError, ServerTimestamp, UserFacingError};

verus! {

/// A terminal block as the server stores it.
#[derive(Debug, PartialEq, Eq)]
pub struct Block {
    pub id: Option<String>,
    pub command: Option<String>,
    pub output: Option<String>,
    pub stylized_command: Option<String>,
    pub stylized_output: Option<String>,
    pub pwd: Option<String>,
    pub time_started_term: ServerTimestamp,
    pub time_completed_term: ServerTimestamp,
    pub stylized_prompt: Option<String>,
    pub stylized_prompt_and_command: Option<String>,
}

/// A block as the GraphQL response lists it.
#[derive(Debug, PartialEq, Eq)]
pub struct GqlBlock {
    pub uid: String,
    pub command: Option<String>,
    pub time_started_term: Option<ServerTimestamp>,
}

/// The block a listed GraphQL block stands for, if it has a start time: its
/// uid and command, that time as both start and completion time, nothing else.
pub open spec fn spec_block_from_gql(value: GqlBlock) -> Option<Block> {
    match value.time_started_term {
        Some(t) => Some(Block {
            id: Some(value.uid),
            command: value.command,
            output: None,
            stylized_command: None,
            stylized_output: None,
            pwd: None,
            time_started_term: t,
            time_completed_term: t,
            stylized_prompt: None,
            stylized_prompt_and_command: None,
        }),
        None => None,
    }
}

impl Block {
    /// Converts a listed GraphQL block; fails when it has no start time.
    pub fn try_from(value: GqlBlock) -> (r: Result<Block, ServerApiError>)
        ensures
            spec_block_from_gql(value) matches Some(b) ==> r == Ok::<Block, ServerApiError>(b),
            spec_block_from_gql(value) is None ==> (r matches Err(e) && e.message@ == "missing id or time_started_term"@),
    {
        match value.time_started_term {
            Some(t) => Ok(Block {
                id: Some(value.uid),
                command: value.command,
                output: None,
                stylized_command: None,
                stylized_output: None,
                pwd: None,
                time_started_term: t,
                time_completed_term: t,
                stylized_prompt: None,
                stylized_prompt_and_command: None,
            }),
            None => Err(ServerApiError { message: String::from_str("missing id or time_started_term") }),
        }
    }
}

/// The blocks of a GraphQL listing that convert, in order.
pub open spec fn spec_owned_blocks(listed: Seq<GqlBlock>) -> Seq<Block>
    decreases listed.len(),
{
    if listed.len() == 0 {
        Seq::empty()
    } else {
        let rest = spec_owned_blocks(listed.drop_last());
        match spec_block_from_gql(listed.last()) {
            Some(b) => rest.push(b),
            None => rest,
        }
    }
}

/// The user's blocks from the server's listing (`None` when the answer is not
/// one the client knows): those that convert, in order.
pub fn blocks_owned_by_user_response(listed: Option<Vec<GqlBlock>>) -> (r: Result<Vec<Block>, ServerApiError>)
    ensures
        match listed {
            Some(v) => r matches Ok(blocks) && blocks@ == spec_owned_blocks(v@),
            None => r matches Err(e) && e.message@ == "Unable to fetch blocks"@,
        },
{
    match listed {
        Some(v) => {
            let ghost all = v@;
            let mut blocks: Vec<Block> = Vec::new();
            for b in it: v
                invariant
                    all == it.seq(),
                    blocks@ == spec_owned_blocks(it.seq().subrange(0, it.index() as int)),
            {
                proof {
                    assert(it.seq().subrange(0, it.index() + 1).drop_last() =~= it.seq().subrange(0, it.index() as int));
                }
                match Block::try_from(b) {
                    Ok(block) => blocks.push(block),
                    Err(_) => {},
                }
            }
            proof {
                assert(all.subrange(0, all.len() as int) =~= all);
            }
            Ok(blocks)
        },
        None => Err(ServerApiError { message: String::from_str("Unable to fetch blocks") }),
    }
}

/// The server's answer to unsharing a block.
pub enum UnshareBlockResult {
    UnshareBlockOutput { success: bool },
    UserFacingError(UserFacingError),
    Unknown,
}

/// What unsharing a block comes to: done when the server reports success.
pub fn unshare_block_response(response: UnshareBlockResult) -> (r: Result<(), ServerApiError>)
    ensures
        match response {
            UnshareBlockResult::UnshareBlockOutput { success } => if success {
                r is Ok
            } else {
                r matches Err(e) && e.message@ == "Failed to unshare block"@
            },
            UnshareBlockResult::UserFacingError(e) => r matches Err(err) && err.message@ == e.message@,
            UnshareBlockResult::Unknown => r matches Err(e) && e.message@ == "Failed to unshare block"@,
        },
{
    match response {
        UnshareBlockResult::UnshareBlockOutput { success } => if success {
            Ok(())
        } else {
            Err(ServerApiError { message: String::from_str("Failed to unshare block") })
        },
        UnshareBlockResult::UserFacingError(e) => Err(ServerApiError { message: e.message }),
        UnshareBlockResult::Unknown => Err(ServerApiError { message: String::from_str("Failed to unshare block") }),
    }
}

/// The server's answer to sharing a block.
pub enum ShareBlockResult {
    ShareBlockOutput { url_ending: String },
    UserFacingError(UserFacingError),
    Unknown,
}

/// The link to a shared block: the server root, the url ending, and on preview
/// builds `?preview=true`.
pub fn save_block_response(response: ShareBlockResult, server_root_url: &str, is_preview_channel: bool) -> (r: Result<String, ServerApiError>)
    ensures
        match response {
            ShareBlockResult::ShareBlockOutput { url_ending } => r matches Ok(url)
                && url@ == server_root_url@ + url_ending@ + (if is_preview_channel { "?preview=true"@ } else { Seq::empty() }),
            ShareBlockResult::UserFacingError(e) => r matches Err(err) && err.message@ == e.message@,
            ShareBlockResult::Unknown => r matches Err(e) && e.message@ == "Failed to share block"@,
        },
{
    match response {
        ShareBlockResult::ShareBlockOutput { url_ending } => {
            let mut created_url = String::from_str(server_root_url);
            created_url.append(url_ending.as_str());
            if is_preview_channel {
                created_url.append("?preview=true");
            }
            proof {
                assert(created_url@ =~= server_root_url@ + url_ending@ + (if is_preview_channel { "?preview=true"@ } else { Seq::empty() }));
            }
            Ok(created_url)
        },
        ShareBlockResult::UserFacingError(e) => Err(ServerApiError { message: e.message }),
        ShareBlockResult::Unknown => Err(ServerApiError { message: String::from_str("Failed to share block") }),
    }
}

/// How an embedded block is displayed.
#[derive(Clone, Debug, PartialEq, Eq)]
pub struct DisplaySetting(pub String);

/// What a request to share a block sends.
#[derive(Debug, PartialEq, Eq)]
pub struct GqlBlockInput {
    pub command: Option<String>,
    pub embed_display_setting: DisplaySetting,
    pub output: Option<String>,
    pub show_prompt: bool,
    pub stylized_command: Option<String>,
    pub stylized_output: Option<String>,
    pub stylized_prompt: Option<String>,
    pub stylized_prompt_and_command: Option<String>,
    pub time_started_term: Option<ServerTimestamp>,
    pub title: Option<String>,
}

fn clone_text(s: &Option<String>) -> (c: Option<String>)
    ensures
        c == *s,
{
    match s {
        Some(t) => Some(t.clone()),
        None => None,
    }
}

/// The request to share a block: the block's command, output and prompts, its
/// start time, and the title, prompt choice and display asked for.
pub fn share_block_input(block: &Block, title: Option<String>, show_prompt: bool, display_setting: DisplaySetting) -> (i: GqlBlockInput)
    ensures
        i == (GqlBlockInput {
            command: block.command,
            embed_display_setting: display_setting,
            output: block.output,
            show_prompt,
            stylized_command: block.stylized_command,
            stylized_output: block.stylized_output,
            stylized_prompt: block.stylized_prompt,
            stylized_prompt_and_command: block.stylized_prompt_and_command,
            time_started_term: Some(block.time_started_term),
            title,
        }),
{
    GqlBlockInput {
        command: clone_text(&block.command),
        embed_display_setting: display_setting,
        output: clone_text(&block.output),
        show_prompt,
        stylized_command: clone_text(&block.stylized_command),
        stylized_output: clone_text(&block.stylized_output),
        stylized_prompt: clone_text(&block.stylized_prompt),
        stylized_prompt_and_command: clone_text(&block.stylized_prompt_and_command),
        time_started_term: Some(block.time_started_term),
        title,
    }
}

/// A request for a title for a shared block.
#[derive(Clone, Debug, PartialEq, Eq)]
pub struct GenerateBlockTitleRequest {
    pub command: String,
    pub output: String,
}

/// A title generated for a shared block.
#[derive(Clone, Debug, PartialEq, Eq)]
pub struct GenerateBlockTitleResponse {
    pub title: String,
}

/// A client for sharing blocks.
pub trait BlockClient {
    /// Unshares the block with the given id.
    fn unshare_block(&self, block_id: String) -> Result<(), ServerApiError>;

    /// Shares a block and returns its link.
    fn save_block(&self, block: &Block, title: Option<String>, show_prompt: bool) -> Result<String, ServerApiError>;

    /// The blocks the user owns.
    fn blocks_owned_by_user(&self) -> Result<Vec<Block>, ServerApiError>;

    /// A title for a block to be shared.
    fn generate_shared_block_title(&self, request: GenerateBlockTitleRequest) -> Result<GenerateBlockTitleResponse, ServerApiError>;
}

/// The block client of this build, which cannot reach the server.
pub struct OssBlockClient;

impl BlockClient for OssBlockClient {
    /// Unsharing succeeds without doing anything.
    fn unshare_block(&self, block_id: String) -> (r: Result<(), ServerApiError>)
        ensures
            r is Ok,
    {
        Ok(())
    }

    /// Sharing is not available.
    fn save_block(&self, block: &Block, title: Option<String>, show_prompt: bool) -> (r: Result<String, ServerApiError>)
        ensures
            r matches Err(e) && e.message@ == "Block sharing server APIs are not available in this build"@,
    {
        Err(ServerApiError { message: String::from_str("Block sharing server APIs are not available in this build") })
    }

    /// The user owns no blocks.
    fn blocks_owned_by_user(&self) -> (r: Result<Vec<Block>, ServerApiError>)
        ensures
            r matches Ok(v) && v@.len() == 0,
    {
        Ok(Vec::new())
    }

    /// Title generation is not available.
    fn generate_shared_block_title(&self, request: GenerateBlockTitleRequest) -> (r: Result<GenerateBlockTitleResponse, ServerApiError>)
        ensures
            r matches Err(e) && e.message@ == "AI block title generation is not available in this build"@,
    {
        Err(ServerApiError { message: String::from_str("AI block title generation is not available in this build") })
    }
}


/// A listed block converts exactly when it has a start time, and the block it
/// converts to keeps the listed block's uid as its id and its command, with
/// the start time as both its start and completion time.
pub proof fn law_converted_block_keeps_listing(value: GqlBlock)
    ensures
        spec_block_from_gql(value) is Some <==> value.time_started_term is Some,
        spec_block_from_gql(value) matches Some(b) ==> {
            &&& b.id == Some(value.uid)
            &&& b.command == value.command
            &&& value.time_started_term == Some(b.time_started_term)
            &&& b.time_completed_term == b.time_started_term
        },
{
}

/// Every block fetched from a listing is one of the listed blocks: some listed
/// block with a start time has its id, command and start time; and there are
/// as many fetched blocks as listed blocks with a start time.
pub proof fn law_owned_blocks_come_from_listing(listed: Seq<GqlBlock>)
    ensures
        forall|j: int| 0 <= j < spec_owned_blocks(listed).len() ==> exists|i: int| 0 <= i < listed.len()
            && (#[trigger] spec_owned_blocks(listed)[j]).id == Some(listed[i].uid)
            && spec_owned_blocks(listed)[j].command == listed[i].command
            && listed[i].time_started_term == Some(spec_owned_blocks(listed)[j].time_started_term),
        spec_owned_blocks(listed).len() == listed.filter(|g: GqlBlock| g.time_started_term is Some).len(),
    decreases listed.len(),
{
    if listed.len() > 0 {
        let prefix = listed.drop_last();
        law_owned_blocks_come_from_listing(prefix);
        law_converted_block_keeps_listing(listed.last());
        reveal(Seq::filter);
        assert(listed =~= prefix.push(listed.last()));
        assert(listed.filter(|g: GqlBlock| g.time_started_term is Some)
            == prefix.filter(|g: GqlBlock| g.time_started_term is Some)
                + if listed.last().time_started_term is Some { seq![listed.last()] } else { Seq::<GqlBlock>::empty() }) by {
            assert(listed.drop_last() == prefix);
        }
        let out = spec_owned_blocks(listed);
        let before = spec_owned_blocks(prefix);
        assert forall|j: int| 0 <= j < out.len() implies exists|i: int| 0 <= i < listed.len()
            && (#[trigger] out[j]).id == Some(listed[i].uid)
            && out[j].command == listed[i].command
            && listed[i].time_started_term == Some(out[j].time_started_term) by {
            if j < before.len() {
                assert(out[j] == before[j]);
                let i = choose|i: int| 0 <= i < prefix.len()
                    && (#[trigger] before[j]).id == Some(prefix[i].uid)
                    && before[j].command == prefix[i].command
                    && prefix[i].time_started_term == Some(before[j].time_started_term);
                assert(listed[i] == prefix[i]);
            } else {
                assert(listed[listed.len() - 1] == listed.last());
            }
        }
    }
}

} // verus!
