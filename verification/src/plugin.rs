//! Plugins: how an install source is read, what installing does, and what plugin tools answer.
use vstd::prelude::*;
use crate::text::{append_str, is_prefix, starts_with, str_eq};
use crate::text_split::{trim, trimmed};
use crate::paths::{join_path, mekai_dir, path_join};

verus! {

/// Whether `s` ends with `suffix`.
pub open spec fn is_suffix(suffix: Seq<char>, s: Seq<char>) -> bool {
    suffix.len() <= s.len() && s.subrange(s.len() - suffix.len(), s.len() as int) == suffix
}

/// The text after the last `/` (all of it when there is none).
pub open spec fn last_segment(s: Seq<char>) -> Seq<char>
    decreases s.len(),
{
    if s.len() == 0 {
        s
    } else if s.last() == '/' {
        Seq::empty()
    } else {
        last_segment(s.drop_last()).push(s.last())
    }
}

/// How an archive is packed.
#[derive(Debug, Clone, Copy, PartialEq, Eq, Structural)]
pub enum ArchiveFormat {
    Zip,
    TarGz,
    Unsupported,
}

/// Where a plugin comes from, and the name it is installed under.
#[derive(Debug)]
pub enum PluginSource {
    /// An archive downloaded from a URL.
    Archive { name: String, format: ArchiveFormat },
    /// A git repository.
    Git { name: String },
    /// A local directory (named by its last component).
    Local,
}

pub enum PluginSourceView {
    Archive(Seq<char>, ArchiveFormat),
    Git(Seq<char>),
    Local,
}

impl View for PluginSource {
    type V = PluginSourceView;

    open spec fn view(&self) -> PluginSourceView {
        match self {
            PluginSource::Archive { name, format } => PluginSourceView::Archive(name@, *format),
            PluginSource::Git { name } => PluginSourceView::Git(name@),
            PluginSource::Local => PluginSourceView::Local,
        }
    }
}

pub open spec fn without_suffix(s: Seq<char>, suffix: Seq<char>) -> Seq<char> {
    s.subrange(0, s.len() - suffix.len())
}

/// How a source is read: a URL names an archive (its last segment without `.zip` or `.tar.gz`),
/// a text with `:` or starting with `git@` a repository (its last segment without `.git`, or
/// `plugin`), anything else a local directory.
pub open spec fn source_kind(source: Seq<char>) -> PluginSourceView {
    if is_prefix("http://"@, source) || is_prefix("https://"@, source) {
        let seg = last_segment(source);
        let name = if is_suffix(".zip"@, seg) {
            without_suffix(seg, ".zip"@)
        } else if is_suffix(".tar.gz"@, seg) {
            without_suffix(seg, ".tar.gz"@)
        } else {
            seg
        };
        let format = if is_suffix(".zip"@, source) {
            ArchiveFormat::Zip
        } else if is_suffix(".tar.gz"@, source) {
            ArchiveFormat::TarGz
        } else {
            ArchiveFormat::Unsupported
        };
        PluginSourceView::Archive(name, format)
    } else if source.contains(':') || is_prefix("git@"@, source) {
        let seg = last_segment(source);
        PluginSourceView::Git(if is_suffix(".git"@, seg) { without_suffix(seg, ".git"@) } else { "plugin"@ })
    } else {
        PluginSourceView::Local
    }
}

fn ends_with(s: &str, suffix: &str) -> (b: bool)
    ensures
        b == is_suffix(suffix@, s@),
{
    let n = s.unicode_len();
    let m = suffix.unicode_len();
    if m > n {
        return false;
    }
    str_eq(s.substring_char(n - m, n), suffix)
}

fn cut_suffix(s: &str, suffix: &str) -> (r: String)
    requires
        is_suffix(suffix@, s@),
    ensures
        r@ == without_suffix(s@, suffix@),
{
    let n = s.unicode_len();
    let m = suffix.unicode_len();
    String::from_str(s.substring_char(0, n - m))
}

proof fn lemma_last_segment(s: Seq<char>, k: int)
    requires
        0 <= k <= s.len(),
        k == 0 || s[k - 1] == '/',
        forall|j: int| k <= j < s.len() ==> s[j] != '/',
    ensures
        last_segment(s) == s.subrange(k, s.len() as int),
    decreases s.len(),
{
    if s.len() > k {
        lemma_last_segment(s.drop_last(), k);
        assert(s.drop_last().subrange(k, s.len() - 1) =~= s.subrange(k, s.len() - 1));
        assert(s.subrange(k, s.len() as int) =~= s.subrange(k, s.len() - 1).push(s.last()));
    } else if k > 0 {
        assert(s.subrange(k, s.len() as int) =~= Seq::<char>::empty());
    } else {
        assert(s.subrange(0, 0) =~= Seq::<char>::empty());
    }
}

/// The text after the last `/`.
pub fn last_segment_of(s: &str) -> (r: String)
    ensures
        r@ == last_segment(s@),
{
    let n = s.unicode_len();
    let mut k: usize = n;
    while k > 0 && s.get_char(k - 1) != '/'
        invariant
            k <= n,
            n == s@.len(),
            forall|j: int| k <= j < n ==> s@[j] != '/',
        decreases k,
    {
        k = k - 1;
    }
    proof {
        lemma_last_segment(s@, k as int);
    }
    String::from_str(s.substring_char(k, n))
}

/// Reads an install source.
pub fn classify_source(source: &str) -> (r: PluginSource)
    ensures
        r@ == source_kind(source@),
{
    if starts_with(source, "http://") || starts_with(source, "https://") {
        let seg = last_segment_of(source);
        let name = if ends_with(seg.as_str(), ".zip") {
            cut_suffix(seg.as_str(), ".zip")
        } else if ends_with(seg.as_str(), ".tar.gz") {
            cut_suffix(seg.as_str(), ".tar.gz")
        } else {
            seg
        };
        let format = if ends_with(source, ".zip") {
            ArchiveFormat::Zip
        } else if ends_with(source, ".tar.gz") {
            ArchiveFormat::TarGz
        } else {
            ArchiveFormat::Unsupported
        };
        PluginSource::Archive { name, format }
    } else if crate::text_split::has_char(source, ':') || starts_with(source, "git@") {
        let seg = last_segment_of(source);
        let name = if ends_with(seg.as_str(), ".git") { cut_suffix(seg.as_str(), ".git") } else { String::from_str("plugin") };
        PluginSource::Git { name }
    } else {
        PluginSource::Local
    }
}

/// What installing does once the destination is known.
#[derive(Debug, Clone, Copy, PartialEq, Eq, Structural)]
pub enum InstallAction {
    ExtractZip,
    ExtractTarGz,
    Clone,
    Copy,
}

/// What installing from a source does: nothing but an error when a plugin of that name exists,
/// or the archive format is not supported, or a local source is not a directory.
pub fn install_action(source: &PluginSource, name: &str, dest_exists: bool, source_is_dir: bool) -> (r: Result<InstallAction, String>)
    ensures
        dest_exists ==> r is Err && r->Err_0@ == "Plugin "@ + name@ + " already exists"@,
        !dest_exists ==> match source@ {
            PluginSourceView::Archive(_, ArchiveFormat::Zip) => r == Ok::<InstallAction, String>(InstallAction::ExtractZip),
            PluginSourceView::Archive(_, ArchiveFormat::TarGz) => r == Ok::<InstallAction, String>(InstallAction::ExtractTarGz),
            PluginSourceView::Archive(_, ArchiveFormat::Unsupported) => r is Err && r->Err_0@
                == "Unsupported archive format. Use .zip or .tar.gz"@,
            PluginSourceView::Git(_) => r == Ok::<InstallAction, String>(InstallAction::Clone),
            PluginSourceView::Local => if source_is_dir {
                r == Ok::<InstallAction, String>(InstallAction::Copy)
            } else {
                r is Err && r->Err_0@ == "Local plugin must be a directory"@
            },
        },
{
    if dest_exists {
        let mut e = String::from_str("Plugin ");
        append_str(&mut e, name);
        append_str(&mut e, " already exists");
        return Err(e);
    }
    match source {
        PluginSource::Archive { name: _, format } => match format {
            ArchiveFormat::Zip => Ok(InstallAction::ExtractZip),
            ArchiveFormat::TarGz => Ok(InstallAction::ExtractTarGz),
            ArchiveFormat::Unsupported => Err(String::from_str("Unsupported archive format. Use .zip or .tar.gz")),
        },
        PluginSource::Git { name: _ } => Ok(InstallAction::Clone),
        PluginSource::Local => if source_is_dir {
            Ok(InstallAction::Copy)
        } else {
            Err(String::from_str("Local plugin must be a directory"))
        },
    }
}

/// The error of a failed clone.
pub fn clone_failed(stderr: &str) -> (e: String)
    ensures
        e@ == "git clone failed: "@ + stderr@,
{
    let mut e = String::from_str("git clone failed: ");
    append_str(&mut e, stderr);
    e
}

/// The notice of an installed plugin.
pub fn installed_notice(name: &str) -> (s: String)
    ensures
        s@ == "Installed plugin: "@ + name@,
{
    let mut s = String::from_str("Installed plugin: ");
    append_str(&mut s, name);
    s
}

/// A plugin's version and description from its configuration (`0.0.1` and empty by default).
pub fn plugin_info(version: Option<&str>, description: Option<&str>) -> (r: (String, String))
    ensures
        r.0@ == match version { Some(v) => v@, None => "0.0.1"@ },
        r.1@ == match description { Some(d) => d@, None => Seq::empty() },
{
    let v = match version {
        Some(v) => String::from_str(v),
        None => String::from_str("0.0.1"),
    };
    let d = match description {
        Some(d) => String::from_str(d),
        None => String::new(),
    };
    (v, d)
}

/// What a plugin tool answers: its trimmed output, or the error with what it wrote to stderr.
pub fn plugin_tool_result(name: &str, success: bool, stdout: &str, stderr: &str) -> (r: Result<String, String>)
    ensures
        success ==> r is Ok && r->Ok_0@ == trimmed(stdout@),
        !success ==> r is Err && r->Err_0@ == "tool error: Plugin "@ + name@ + " failed: "@ + stderr@,
{
    if success {
        Ok(trim(stdout))
    } else {
        let mut e = String::from_str("tool error: Plugin ");
        append_str(&mut e, name);
        append_str(&mut e, " failed: ");
        append_str(&mut e, stderr);
        Err(e)
    }
}

/// How installed plugins are listed: name and description.
pub fn plugin_line(name: &str, description: &str) -> (s: String)
    ensures
        s@ == name@ + " - "@ + description@,
{
    let mut s = String::from_str(name);
    append_str(&mut s, " - ");
    append_str(&mut s, description);
    s
}

/// Where plugins are installed.
#[derive(Debug, Clone)]
pub struct PluginManager {
    pub plugins_dir: String,
}

impl PluginManager {
    /// The plugins directory under the program's data directory.
    pub fn new() -> (m: PluginManager)
        ensures
            exists|d: Option<Seq<char>>| m.plugins_dir@ == path_join(mekai_dir(d), "plugins"@),
    {
        let base = crate::paths::mekai_data_dir();
        PluginManager { plugins_dir: join_path(base.as_str(), "plugins") }
    }

    /// Where the plugin with the given name lives.
    pub fn plugin_dir(&self, name: &str) -> (p: String)
        ensures
            p@ == path_join(self.plugins_dir@, name@),
    {
        join_path(self.plugins_dir.as_str(), name)
    }
}

} // verus!
