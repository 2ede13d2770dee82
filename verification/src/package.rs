//! Packaging and release decisions: the packaging-template coordinates,
//! the fixed artifact location, the archive command with its housekeeping
//! denylist, and the release-publication command.

use vstd::prelude::*;
use vstd::string::StringExecFns;

use crate::config::ProjectConfig;
use crate::strings::opt_str;
use crate::strings::unwrap_or_str;

verus! {

/// Repository and branch of the packaging template: the project's
/// override, or the fixed default template at its `master` branch.
pub fn anykernel_coords(p: &ProjectConfig) -> (r: (String, String))
    ensures
        r.0@ == opt_str(p.anykernel_repo, "https://github.com/YuzakiKokuban/AnyKernel3.git"@),
        r.1@ == opt_str(p.anykernel_branch, "master"@),
{
    let repo = unwrap_or_str(&p.anykernel_repo, "https://github.com/YuzakiKokuban/AnyKernel3.git");
    let branch = unwrap_or_str(&p.anykernel_branch, "master");
    (repo, branch)
}

/// The command that clones the packaging template, replacing any earlier
/// copy of the `AnyKernel3` tree.
pub fn clone_anykernel_command(repo: &str, branch: &str) -> (r: Vec<String>)
    ensures
        r@.len() == 6,
        r@[0]@ == "git"@,
        r@[1]@ == "clone"@,
        r@[2]@ == repo@,
        r@[3]@ == "-b"@,
        r@[4]@ == branch@,
        r@[5]@ == "AnyKernel3"@,
{
    let mut cmd: Vec<String> = Vec::new();
    cmd.push(String::from_str("git"));
    cmd.push(String::from_str("clone"));
    cmd.push(String::from_str(repo));
    cmd.push(String::from_str("-b"));
    cmd.push(String::from_str(branch));
    cmd.push(String::from_str("AnyKernel3"));
    cmd
}

/// Where the compiled kernel image must exist below the kernel output
/// tree; its absence after a reported-successful compile is a distinct
/// fatal condition.
pub fn image_relative_path() -> (r: String)
    ensures
        r@ == "out/arch/arm64/boot/Image"@,
{
    String::from_str("out/arch/arm64/boot/Image")
}

/// The archive command, run inside the template tree: a recursive maximum
/// compression zip written one directory above, excluding the template's
/// housekeeping files (VCS metadata, license and readme, the patch helper
/// and the prebuilt boot-image binaries).
pub fn zip_command(name: &str) -> (r: Vec<String>)
    ensures
        r@.len() == 20,
        r@[0]@ == "zip"@,
        r@[1]@ == "-r9"@,
        r@[2]@ == "../"@ + name@,
        r@[3]@ == "."@,
        r@[4]@ == "-x"@ && r@[5]@ == ".git*"@,
        r@[6]@ == "-x"@ && r@[7]@ == ".github*"@,
        r@[8]@ == "-x"@ && r@[9]@ == "README.md"@,
        r@[10]@ == "-x"@ && r@[11]@ == "LICENSE"@,
        r@[12]@ == "-x"@ && r@[13]@ == "*.gitignore"@,
        r@[14]@ == "-x"@ && r@[15]@ == "patch_linux"@,
        r@[16]@ == "-x"@ && r@[17]@ == "tools/boot.img.lz4"@,
        r@[18]@ == "-x"@ && r@[19]@ == "tools/libmagiskboot.so"@,
{
    let mut target = String::from_str("../");
    target.append(name);
    let mut cmd: Vec<String> = Vec::new();
    cmd.push(String::from_str("zip"));
    cmd.push(String::from_str("-r9"));
    cmd.push(target);
    cmd.push(String::from_str("."));
    cmd.push(String::from_str("-x"));
    cmd.push(String::from_str(".git*"));
    cmd.push(String::from_str("-x"));
    cmd.push(String::from_str(".github*"));
    cmd.push(String::from_str("-x"));
    cmd.push(String::from_str("README.md"));
    cmd.push(String::from_str("-x"));
    cmd.push(String::from_str("LICENSE"));
    cmd.push(String::from_str("-x"));
    cmd.push(String::from_str("*.gitignore"));
    cmd.push(String::from_str("-x"));
    cmd.push(String::from_str("patch_linux"));
    cmd.push(String::from_str("-x"));
    cmd.push(String::from_str("tools/boot.img.lz4"));
    cmd.push(String::from_str("-x"));
    cmd.push(String::from_str("tools/libmagiskboot.so"));
    cmd
}

/// The release-publication command: the archive is the sole asset, and the
/// notes carry the fixed template referencing the built variant.
pub fn release_command(tag: &str, zip: &str, repo: &str, title: &str, branch: &str) -> (r: Vec<
    String,
>)
    ensures
        r@.len() == 11,
        r@[0]@ == "gh"@,
        r@[1]@ == "release"@,
        r@[2]@ == "create"@,
        r@[3]@ == tag@,
        r@[4]@ == zip@,
        r@[5]@ == "--repo"@,
        r@[6]@ == repo@,
        r@[7]@ == "--title"@,
        r@[8]@ == title@,
        r@[9]@ == "--notes"@,
        r@[10]@ == "Automated build for "@ + branch@,
{
    let mut notes = String::from_str("Automated build for ");
    notes.append(branch);
    let mut cmd: Vec<String> = Vec::new();
    cmd.push(String::from_str("gh"));
    cmd.push(String::from_str("release"));
    cmd.push(String::from_str("create"));
    cmd.push(String::from_str(tag));
    cmd.push(String::from_str(zip));
    cmd.push(String::from_str("--repo"));
    cmd.push(String::from_str(repo));
    cmd.push(String::from_str("--title"));
    cmd.push(String::from_str(title));
    cmd.push(String::from_str("--notes"));
    cmd.push(notes);
    cmd
}

} // verus!
