//! Notification fan-out rules: which project owns a release tag, which
//! chat destinations receive the announcement, the size gate on asset
//! attachments, and the exact texts delivered.

use vstd::prelude::*;
use vstd::string::StringExecFns;

use crate::config::GlobalConfig;
use crate::config::ProjectConfig;
use crate::config::Registry;
use crate::strings::contains_seq;
use crate::strings::contains_str;
use crate::strings::opt_str;
use crate::strings::starts_with_str;
use crate::strings::unwrap_or_str;

verus! {

/// Whether a registry entry owns a release tag: reserved `_`-prefixed keys
/// never do; any other entry does when its naming prefix (`Kernel` when
/// unset) is a prefix of the tag.
pub open spec fn tag_matches(e: (String, ProjectConfig), tag: Seq<char>) -> bool {
    !"_"@.is_prefix_of(e.0@) && opt_str(e.1.zip_name_prefix, "Kernel"@).is_prefix_of(tag)
}

/// The project a release tag reverse-maps to: the first entry, in registry
/// order, whose naming prefix matches — first match wins, an accepted
/// policy even though overlapping prefixes make it order-dependent.
pub fn find_project_for_tag(registry: &Registry, tag: &str) -> (r: Option<usize>)
    ensures
        match r {
            Some(i) => 0 <= i < registry@.len() && tag_matches(registry@[i as int], tag@)
                && forall|j: int| 0 <= j < i ==> !tag_matches(#[trigger] registry@[j], tag@),
            None => forall|j: int|
                0 <= j < registry@.len() ==> !tag_matches(#[trigger] registry@[j], tag@),
        },
{
    let mut i: usize = 0;
    while i < registry.len()
        invariant
            0 <= i <= registry@.len(),
            forall|j: int| 0 <= j < i ==> !tag_matches(#[trigger] registry@[j], tag@),
        decreases registry@.len() - i,
    {
        let key = &registry[i].0;
        let reserved = starts_with_str(key.as_str(), "_");
        if !reserved {
            let prefix = unwrap_or_str(&registry[i].1.zip_name_prefix, "Kernel");
            if starts_with_str(tag, prefix.as_str()) {
                proof {
                    assert(tag_matches(registry@[i as int], tag@));
                }
                return Some(i);
            }
        }
        i = i + 1;
    }
    None
}

/// Views of a destination list: chat identifier and optional topic.
pub open spec fn dest_views(s: Seq<(String, Option<i32>)>) -> Seq<(Seq<char>, Option<i32>)> {
    s.map_values(|d: (String, Option<i32>)| (d.0@, d.1))
}

/// The destinations of one release announcement: the broadcast channel
/// when configured, plus the fork-specific chat (with its topic) when the
/// tag indicates the `ReSuki` fork. An empty result is a normal state,
/// not an error.
pub open spec fn destinations_spec(g: GlobalConfig, tag: Seq<char>) -> Seq<(Seq<char>, Option<i32>)> {
    (match g.broadcast_channel {
        Some(c) => seq![(c@, None::<i32>)],
        None => Seq::empty(),
    }) + (if contains_seq(tag, "ReSuki"@) {
        match g.resukisu_chat_id {
            Some(c) => seq![(c@, g.resukisu_topic_id)],
            None => Seq::empty(),
        }
    } else {
        Seq::empty()
    })
}

pub fn notify_destinations(globals: &GlobalConfig, tag: &str) -> (r: Vec<(String, Option<i32>)>)
    ensures
        dest_views(r@) == destinations_spec(*globals, tag@),
{
    let mut dests: Vec<(String, Option<i32>)> = Vec::new();
    match &globals.broadcast_channel {
        Some(c) => {
            dests.push((c.clone(), None));
        },
        None => {},
    }
    if contains_str(tag, "ReSuki") {
        match &globals.resukisu_chat_id {
            Some(c) => {
                let topic = match &globals.resukisu_topic_id {
                    Some(t) => Some(*t),
                    None => None,
                };
                dests.push((c.clone(), topic));
            },
            None => {},
        }
    }
    proof {
        assert(dest_views(dests@) =~= destinations_spec(*globals, tag@));
    }
    dests
}

/// Whether a release asset is small enough to attach to a chat message:
/// anything above fifty mebibytes is skipped, reported and not retried,
/// because the chat platform will not take the upload.
pub fn asset_within_limit(size: i64) -> (r: bool)
    ensures
        r == (size <= 50 * 1024 * 1024),
{
    size <= 50 * 1024 * 1024
}

/// The announcement sent to each destination for a new release.
pub open spec fn release_message_spec(
    repo: Seq<char>,
    tag: Seq<char>,
    name: Seq<char>,
    author: Seq<char>,
    url: Seq<char>,
) -> Seq<char> {
    "兄长大人，快看！<code>"@ + repo + "</code> 有新的 Release 了哦。\n\n<b>版本 (Version):</b> <code>"@
        + tag + "</code>\n<b>标题 (Title):</b> "@ + name + "\n<b>作者 (Author):</b> "@ + author
        + "\n\n总之，快去看看吧！ <a href='"@ + url + "'>点击这里跳转</a>"@
}

pub fn release_message(repo: &str, tag: &str, name: &str, author: &str, url: &str) -> (r: String)
    ensures
        r@ == release_message_spec(repo@, tag@, name@, author@, url@),
{
    let mut s = String::from_str("兄长大人，快看！<code>");
    s.append(repo);
    s.append("</code> 有新的 Release 了哦。\n\n<b>版本 (Version):</b> <code>");
    s.append(tag);
    s.append("</code>\n<b>标题 (Title):</b> ");
    s.append(name);
    s.append("\n<b>作者 (Author):</b> ");
    s.append(author);
    s.append("\n\n总之，快去看看吧！ <a href='");
    s.append(url);
    s.append("'>点击这里跳转</a>");
    s
}

/// The caption sent with each attached asset.
pub open spec fn attachment_caption_spec(repo: Seq<char>, tag: Seq<char>, file: Seq<char>) -> Seq<
    char,
> {
    "兄长大人，附件来了。\n<b>仓库 (Repo):</b> <code>"@ + repo
        + "</code>\n<b>版本 (Version):</b> <code>"@ + tag + "</code>\n\n📄 <b>文件 (File):</b> <code>"@
        + file + "</code>"@
}

pub fn attachment_caption(repo: &str, tag: &str, file: &str) -> (r: String)
    ensures
        r@ == attachment_caption_spec(repo@, tag@, file@),
{
    let mut s = String::from_str("兄长大人，附件来了。\n<b>仓库 (Repo):</b> <code>");
    s.append(repo);
    s.append("</code>\n<b>版本 (Version):</b> <code>");
    s.append(tag);
    s.append("</code>\n\n📄 <b>文件 (File):</b> <code>");
    s.append(file);
    s.append("</code>");
    s
}

/// The message-send endpoint of the chat bot owning `token`.
pub fn send_message_url(token: &str) -> (r: String)
    ensures
        r@ == "https://api.telegram.org/bot"@ + token@ + "/sendMessage"@,
{
    let mut s = String::from_str("https://api.telegram.org/bot");
    s.append(token);
    s.append("/sendMessage");
    s
}

/// The document-send endpoint of the chat bot owning `token`.
pub fn send_document_url(token: &str) -> (r: String)
    ensures
        r@ == "https://api.telegram.org/bot"@ + token@ + "/sendDocument"@,
{
    let mut s = String::from_str("https://api.telegram.org/bot");
    s.append(token);
    s.append("/sendDocument");
    s
}

/// The command that fetches a release's metadata as JSON.
pub fn release_view_command(tag: &str, repo: &str) -> (r: Vec<String>)
    ensures
        r@.len() == 8,
        r@[0]@ == "gh"@,
        r@[1]@ == "release"@,
        r@[2]@ == "view"@,
        r@[3]@ == tag@,
        r@[4]@ == "--repo"@,
        r@[5]@ == repo@,
        r@[6]@ == "--json"@,
        r@[7]@ == "assets,body,name,url,author"@,
{
    let mut cmd: Vec<String> = Vec::new();
    cmd.push(String::from_str("gh"));
    cmd.push(String::from_str("release"));
    cmd.push(String::from_str("view"));
    cmd.push(String::from_str(tag));
    cmd.push(String::from_str("--repo"));
    cmd.push(String::from_str(repo));
    cmd.push(String::from_str("--json"));
    cmd.push(String::from_str("assets,body,name,url,author"));
    cmd
}

/// The command that downloads one release asset by name pattern.
pub fn release_download_command(tag: &str, repo: &str, pattern: &str) -> (r: Vec<String>)
    ensures
        r@.len() == 8,
        r@[0]@ == "gh"@,
        r@[1]@ == "release"@,
        r@[2]@ == "download"@,
        r@[3]@ == tag@,
        r@[4]@ == "--repo"@,
        r@[5]@ == repo@,
        r@[6]@ == "-p"@,
        r@[7]@ == pattern@,
{
    let mut cmd: Vec<String> = Vec::new();
    cmd.push(String::from_str("gh"));
    cmd.push(String::from_str("release"));
    cmd.push(String::from_str("download"));
    cmd.push(String::from_str(tag));
    cmd.push(String::from_str("--repo"));
    cmd.push(String::from_str(repo));
    cmd.push(String::from_str("-p"));
    cmd.push(String::from_str(pattern));
    cmd
}

} // verus!
