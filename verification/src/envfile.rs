//! The environment-variable assignments: rendering the fixed block of seven
//! `KEY=value` lines and merging it into existing file content.
//!
//! The block is always complete — a disabled service keeps its defaults —
//! and merging is strictly additive: prior content is preserved byte for
//! byte and the new block goes at the end, with no deduplication.

use vstd::prelude::*;

verus! {

/// The seven connection values that the environment file records.
pub struct EnvValues {
    pub storage_url: String,
    pub storage_user: String,
    pub storage_token: String,
    pub storage_http_port: String,
    pub state_url: String,
    pub state_token: String,
    pub state_run_id: String,
}

/// Mathematical view of [`EnvValues`]: the seven values as character
/// sequences.
pub struct EnvView {
    pub storage_url: Seq<char>,
    pub storage_user: Seq<char>,
    pub storage_token: Seq<char>,
    pub storage_http_port: Seq<char>,
    pub state_url: Seq<char>,
    pub state_token: Seq<char>,
    pub state_run_id: Seq<char>,
}

impl View for EnvValues {
    type V = EnvView;

    open spec fn view(&self) -> EnvView {
        EnvView {
            storage_url: self.storage_url@,
            storage_user: self.storage_user@,
            storage_token: self.storage_token@,
            storage_http_port: self.storage_http_port@,
            state_url: self.state_url@,
            state_token: self.state_token@,
            state_run_id: self.state_run_id@,
        }
    }
}

/// The block appended to the environment file: a leading blank line, a
/// comment header, then the seven assignments in fixed order.
pub open spec fn env_block(v: EnvView) -> Seq<char> {
    "\n# Rice Configuration\nSTORAGE_INSTANCE_URL="@ + v.storage_url + "\nSTORAGE_USER="@
        + v.storage_user + "\nSTORAGE_AUTH_TOKEN="@ + v.storage_token + "\nSTORAGE_HTTP_PORT="@
        + v.storage_http_port + "\nSTATE_INSTANCE_URL="@ + v.state_url + "\nSTATE_AUTH_TOKEN="@
        + v.state_token + "\nSTATE_RUN_ID="@ + v.state_run_id + "\n"@
}

/// Renders the assignment block for the given values.
pub fn render_env_block(v: &EnvValues) -> (r: String)
    ensures
        r@ == env_block(v@),
{
    let mut r = String::from_str("\n# Rice Configuration\nSTORAGE_INSTANCE_URL=");
    r.append(v.storage_url.as_str());
    r.append("\nSTORAGE_USER=");
    r.append(v.storage_user.as_str());
    r.append("\nSTORAGE_AUTH_TOKEN=");
    r.append(v.storage_token.as_str());
    r.append("\nSTORAGE_HTTP_PORT=");
    r.append(v.storage_http_port.as_str());
    r.append("\nSTATE_INSTANCE_URL=");
    r.append(v.state_url.as_str());
    r.append("\nSTATE_AUTH_TOKEN=");
    r.append(v.state_token.as_str());
    r.append("\nSTATE_RUN_ID=");
    r.append(v.state_run_id.as_str());
    r.append("\n");
    r
}

/// Content of the environment file after one setup run: the prior content
/// (empty when the file did not exist) with the new block at the end.
pub open spec fn env_after(prev: Option<Seq<char>>, v: EnvView) -> Seq<char> {
    (match prev {
        Some(p) => p,
        None => Seq::<char>::empty(),
    }) + env_block(v)
}

/// Merges the assignment block into the environment file's content: prior
/// content is kept unchanged and the block is appended.
pub fn merge_env(prev: Option<&String>, v: &EnvValues) -> (r: String)
    ensures
        r@ == env_after(
            (match prev {
                Some(p) => Some(p@),
                None => None,
            }),
            v@,
        ),
{
    let block = render_env_block(v);
    match prev {
        Some(p) => {
            let mut r = p.clone();
            r.append(block.as_str());
            r
        },
        None => block,
    }
}

/// Merging is strictly additive: two consecutive runs leave the original
/// content as an unchanged prefix, followed by the first run's block and
/// then the second run's block, in that order.
pub proof fn lemma_env_merge_accumulates(prev: Seq<char>, v1: EnvView, v2: EnvView)
    ensures
        env_after(Some(env_after(Some(prev), v1)), v2) == prev + env_block(v1) + env_block(v2),
{
}

/// Name of the environment file in the working directory.
pub fn env_file_name() -> (r: &'static str)
    ensures
        r@ == ".env"@,
{
    ".env"
}

} // verus!
