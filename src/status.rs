//! The snapshot of what the environment holds: the project's version and
//! the installed SDK's version and paths.
use vstd::prelude::*;
use vstd::string::*;
use crate::manifest::{manifest_version, project_version_from_manifest};
use crate::platform::Platform;
use crate::probe::{
    bin_dir_in, opt_view, parse_sdk_version, root_dir_of, sdk_bin_path, sdk_root_path, version_in,
};

verus! {

/// What the probing commands and the manifest read gave back; `None` where
/// the command could not be run or the file could not be read.
pub struct ProbeReport {
    pub version_output: Option<String>,
    pub locate_output: Option<String>,
    pub manifest_text: Option<String>,
}

/// One snapshot of the environment.
pub struct Status {
    pub project_version: Option<String>,
    pub sdk_version: Option<String>,
    pub sdk_bin_path: Option<String>,
    pub sdk_root_path: Option<String>,
}

/// A snapshot as text values.
pub struct StatusView {
    pub project_version: Option<Seq<char>>,
    pub sdk_version: Option<Seq<char>>,
    pub sdk_bin_path: Option<Seq<char>>,
    pub sdk_root_path: Option<Seq<char>>,
}

impl View for Status {
    type V = StatusView;

    open spec fn view(&self) -> StatusView {
        StatusView {
            project_version: opt_view(self.project_version),
            sdk_version: opt_view(self.sdk_version),
            sdk_bin_path: opt_view(self.sdk_bin_path),
            sdk_root_path: opt_view(self.sdk_root_path),
        }
    }
}

/// The version that a probe's output reports, if it was run.
pub open spec fn probed_version(out: Option<Seq<char>>) -> Option<Seq<char>> {
    match out {
        Some(o) => version_in(o),
        None => None,
    }
}

/// The launcher's directory that a locate output gives, if it was run.
pub open spec fn probed_bin_dir(p: Platform, out: Option<Seq<char>>) -> Option<Seq<char>> {
    match out {
        Some(o) => bin_dir_in(p, o),
        None => None,
    }
}

/// The project version that a manifest read gave, if it was read.
pub open spec fn probed_project_version(text: Option<Seq<char>>) -> Option<Seq<char>> {
    match text {
        Some(t) => manifest_version(t),
        None => None,
    }
}

/// The snapshot that a probe report gives.
pub open spec fn refreshed_from(s: StatusView, p: Platform, r: ProbeReport) -> bool {
    &&& s.sdk_version == probed_version(opt_view(r.version_output))
    &&& s.sdk_bin_path == probed_bin_dir(p, opt_view(r.locate_output))
    &&& s.sdk_root_path == root_dir_of(p, s.sdk_bin_path)
    &&& s.project_version == probed_project_version(opt_view(r.manifest_text))
}

/// The text shown for an optional value.
pub open spec fn shown(v: Option<Seq<char>>) -> Seq<char> {
    match v {
        Some(t) => t,
        None => "None"@,
    }
}

/// The report of a snapshot, one line per field.
pub open spec fn status_report(s: StatusView) -> Seq<char> {
    "Project version: "@ + shown(s.project_version) + "\n"@
        + "Flutter version: "@ + shown(s.sdk_version) + "\n"@
        + "Flutter path: "@ + shown(s.sdk_bin_path) + "\n"@
        + "Flutter root path: "@ + shown(s.sdk_root_path)
}

fn push_shown(out: &mut String, v: &Option<String>)
    ensures
        final(out)@ == old(out)@ + shown(opt_view(*v)),
{
    match v {
        Some(t) => out.append(t.as_str()),
        None => out.append("None"),
    }
}

impl Status {
    /// The snapshot before any probe: nothing known.
    pub fn new() -> (r: Status)
        ensures
            r@.project_version.is_none(),
            r@.sdk_version.is_none(),
            r@.sdk_bin_path.is_none(),
            r@.sdk_root_path.is_none(),
    {
        Status { project_version: None, sdk_version: None, sdk_bin_path: None, sdk_root_path: None }
    }

    /// The SDK root is the parent of the launcher's directory, and is known
    /// only where that directory is.
    pub open spec fn wf(&self, p: Platform) -> bool {
        self@.sdk_root_path == root_dir_of(p, self@.sdk_bin_path)
    }

    /// Replaces all four fields with what `report` gives.
    pub fn update(&mut self, platform: Platform, report: &ProbeReport)
        ensures
            refreshed_from(final(self)@, platform, *report),
            final(self).wf(platform),
    {
        let sdk_version = match &report.version_output {
            Some(out) => parse_sdk_version(out.as_str()),
            None => None,
        };
        let bin = match &report.locate_output {
            Some(out) => sdk_bin_path(platform, out.as_str()),
            None => None,
        };
        let root = sdk_root_path(platform, &bin);
        let project_version = match &report.manifest_text {
            Some(text) => project_version_from_manifest(text.as_str()),
            None => None,
        };
        self.project_version = project_version;
        self.sdk_version = sdk_version;
        self.sdk_bin_path = bin;
        self.sdk_root_path = root;
    }

    /// The snapshot as text, one field per line, `None` for what is unknown.
    pub fn report(&self) -> (r: String)
        ensures
            r@ == status_report(self@),
    {
        let mut out = String::from_str("Project version: ");
        push_shown(&mut out, &self.project_version);
        out.append("\nFlutter version: ");
        push_shown(&mut out, &self.sdk_version);
        out.append("\nFlutter path: ");
        push_shown(&mut out, &self.sdk_bin_path);
        out.append("\nFlutter root path: ");
        push_shown(&mut out, &self.sdk_root_path);
        proof {
            reveal_strlit("\nFlutter version: ");
            reveal_strlit("\nFlutter path: ");
            reveal_strlit("\nFlutter root path: ");
            reveal_strlit("\n");
            reveal_strlit("Flutter version: ");
            reveal_strlit("Flutter path: ");
            reveal_strlit("Flutter root path: ");
        }
        assert(out@ =~= status_report(self@));
        out
    }
}

} // verus!
