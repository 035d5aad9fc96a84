//! The build information of a program and the one line of text that shows it.

use vstd::prelude::*;

verus! {

/// The commit that a program was built from.
///
/// Hash and date always come together: a build that knows only one of them
/// has no `CommitInfo` at all.
#[derive(Clone, Copy, Debug, PartialEq, Eq)]
pub struct CommitInfo {
    /// The abbreviated hash of the commit.
    pub short_commit_hash: &'static str,
    /// The date of the commit, shown exactly as it was supplied.
    pub commit_date: &'static str,
}

/// What a build knows about itself.
#[derive(Clone, Copy, Debug, PartialEq, Eq)]
pub struct VersionInfo {
    /// The version number of the program.
    pub version: &'static str,
    /// The commit that the program was built from, where the build knew it.
    pub commit_info: Option<CommitInfo>,
    /// The version of the toolchain that built the program, where the build
    /// knew it.
    pub rustc_version: Option<&'static str>,
}

/// A `CommitInfo` as plain text.
pub struct CommitInfoView {
    pub short_commit_hash: Seq<char>,
    pub commit_date: Seq<char>,
}

/// A `VersionInfo` as plain text.
pub struct VersionInfoView {
    pub version: Seq<char>,
    pub commit_info: Option<CommitInfoView>,
    pub rustc_version: Option<Seq<char>>,
}

impl View for CommitInfo {
    type V = CommitInfoView;

    open spec fn view(&self) -> CommitInfoView {
        CommitInfoView {
            short_commit_hash: self.short_commit_hash@,
            commit_date: self.commit_date@,
        }
    }
}

impl View for VersionInfo {
    type V = VersionInfoView;

    open spec fn view(&self) -> VersionInfoView {
        VersionInfoView {
            version: self.version@,
            commit_info: match self.commit_info {
                Some(commit_info) => Some(commit_info@),
                None => None,
            },
            rustc_version: match self.rustc_version {
                Some(rustc_version) => Some(rustc_version@),
                None => None,
            },
        }
    }
}

impl VersionInfoView {
    /// Whether the texts that a build always has are there: the version is
    /// not empty, nor is the hash of the commit where there is one.
    pub open spec fn well_formed(self) -> bool {
        &&& self.version.len() > 0
        &&& self.commit_info matches Some(commit_info) ==> commit_info.short_commit_hash.len() > 0
    }

    /// The one line that shows this build information: the version, then in
    /// parentheses whatever is known of the commit and of the toolchain.
    /// Every piece of text stands in the line as it is.
    pub open spec fn line(self) -> Seq<char> {
        match (self.commit_info, self.rustc_version) {
            (Some(commit_info), Some(rustc_version)) => {
                self.version + " ("@ + commit_info.short_commit_hash + " "@
                    + commit_info.commit_date + ", built with toolchain "@ + rustc_version + ")"@
            },
            (Some(commit_info), None) => {
                self.version + " ("@ + commit_info.short_commit_hash + " "@
                    + commit_info.commit_date + ")"@
            },
            (None, Some(rustc_version)) => {
                self.version + " (built with toolchain "@ + rustc_version + ")"@
            },
            (None, None) => self.version,
        }
    }
}

/// The build information that the raw build constants amount to. A commit
/// hash without a date, or a date without a hash, counts as no commit at all.
pub open spec fn assembled(
    version: Seq<char>,
    short_commit_hash: Option<Seq<char>>,
    commit_date: Option<Seq<char>>,
    rustc_version: Option<Seq<char>>,
) -> VersionInfoView {
    VersionInfoView {
        version,
        commit_info: match (short_commit_hash, commit_date) {
            (Some(short_commit_hash), Some(commit_date)) => Some(
                CommitInfoView { short_commit_hash, commit_date },
            ),
            _ => None,
        },
        rustc_version,
    }
}

/// Packages the constants of a build. Nothing is validated, parsed or
/// changed on the way.
pub fn version(
    package_version: &'static str,
    short_commit_hash: Option<&'static str>,
    commit_date: Option<&'static str>,
    rustc_version: Option<&'static str>,
) -> (info: VersionInfo)
    ensures
        info@ == assembled(
            package_version@,
            short_commit_hash.deep_view(),
            commit_date.deep_view(),
            rustc_version.deep_view(),
        ),
        info@.well_formed() <==> package_version@.len() > 0 && (short_commit_hash matches Some(hash)
            ==> commit_date is Some ==> hash@.len() > 0),
{
    let commit_info = match (short_commit_hash, commit_date) {
        (Some(short_commit_hash), Some(commit_date)) => Some(
            CommitInfo { short_commit_hash, commit_date },
        ),
        _ => None,
    };

    VersionInfo { version: package_version, commit_info, rustc_version }
}

impl VersionInfo {
    /// Writes the version line at the end of `f`.
    pub fn fmt(&self, f: &mut String)
        ensures
            final(f)@ == old(f)@ + self@.line(),
    {
        f.append(self.version);

        match (&self.commit_info, self.rustc_version) {
            (Some(commit_info), Some(rustc_version)) => {
                f.append(" (");
                f.append(commit_info.short_commit_hash);
                f.append(" ");
                f.append(commit_info.commit_date);
                f.append(", built with toolchain ");
                f.append(rustc_version);
                f.append(")");
            },
            (Some(commit_info), None) => {
                f.append(" (");
                f.append(commit_info.short_commit_hash);
                f.append(" ");
                f.append(commit_info.commit_date);
                f.append(")");
            },
            (None, Some(rustc_version)) => {
                f.append(" (built with toolchain ");
                f.append(rustc_version);
                f.append(")");
            },
            (None, None) => {},
        }
    }

    /// The version line as a string of its own.
    pub fn to_string(&self) -> (line: String)
        ensures
            line@ == self@.line(),
    {
        let mut line = String::new();
        self.fmt(&mut line);
        line
    }
}

/// The version line depends on the texts alone: build information that
/// holds the same texts has the same line, character for character.
pub proof fn lemma_same_texts_same_line(a: VersionInfo, b: VersionInfo)
    requires
        a@ == b@,
    ensures
        a@.line() == b@.line(),
{
}

} // verus!
