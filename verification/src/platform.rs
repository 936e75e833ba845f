//! Operating systems, under the names that Node.js gives them.

use crate::text::same_text;
use vstd::prelude::*;

verus! {

/// An operating system that Node.js names, or the name of any other system
/// as a target triple spells it.
#[allow(non_camel_case_types)]
#[derive(Debug, Clone)]
pub enum NodePlatform {
    darwin,
    freebsd,
    openbsd,
    win32,
    unknown(String),
}

/// What a [`NodePlatform`] stands for in contracts.
#[allow(non_camel_case_types)]
pub enum NodePlatformView {
    darwin,
    freebsd,
    openbsd,
    win32,
    unknown(Seq<char>),
}

impl View for NodePlatform {
    type V = NodePlatformView;

    open spec fn view(&self) -> NodePlatformView {
        match self {
            NodePlatform::darwin => NodePlatformView::darwin,
            NodePlatform::freebsd => NodePlatformView::freebsd,
            NodePlatform::openbsd => NodePlatformView::openbsd,
            NodePlatform::win32 => NodePlatformView::win32,
            NodePlatform::unknown(raw) => NodePlatformView::unknown(raw@),
        }
    }
}

impl NodePlatformView {
    /// The platform that the system segment of a target triple names. A
    /// system outside the table is no error: it is carried as it is spelled.
    pub open spec fn of_system(system: Seq<char>) -> NodePlatformView {
        if system == "darwin"@ {
            NodePlatformView::darwin
        } else if system == "freebsd"@ {
            NodePlatformView::freebsd
        } else if system == "openbsd"@ {
            NodePlatformView::openbsd
        } else if system == "windows"@ {
            NodePlatformView::win32
        } else {
            NodePlatformView::unknown(system)
        }
    }

    /// The one-word name under which the platform is shown.
    pub open spec fn name(self) -> Seq<char> {
        match self {
            NodePlatformView::darwin => "darwin"@,
            NodePlatformView::freebsd => "freebsd"@,
            NodePlatformView::openbsd => "openbsd"@,
            NodePlatformView::win32 => "win32"@,
            NodePlatformView::unknown(raw) => raw,
        }
    }
}

/// The four systems of the table are shown under their Node.js names, which
/// for `windows` is `win32` and for the others the system's own name. Every
/// other system is carried as `unknown` and shown as the triple spells it.
pub proof fn lemma_platform_names(system: Seq<char>)
    ensures
        system == "darwin"@ ==> NodePlatformView::of_system(system).name() == "darwin"@,
        system == "freebsd"@ ==> NodePlatformView::of_system(system).name() == "freebsd"@,
        system == "openbsd"@ ==> NodePlatformView::of_system(system).name() == "openbsd"@,
        system == "windows"@ ==> NodePlatformView::of_system(system).name() == "win32"@,
        system != "darwin"@ && system != "freebsd"@ && system != "openbsd"@ && system
            != "windows"@ ==> {
            &&& NodePlatformView::of_system(system) == NodePlatformView::unknown(system)
            &&& NodePlatformView::of_system(system).name() == system
        },
{
    reveal_strlit("darwin");
    reveal_strlit("freebsd");
    reveal_strlit("openbsd");
    reveal_strlit("windows");
    assert("freebsd"@[0] == 'f' && "openbsd"@[0] == 'o' && "windows"@[0] == 'w');
}

impl NodePlatform {
    /// Looks the system segment of a target triple up in the table.
    pub fn from_str(s: &str) -> (platform: NodePlatform)
        ensures
            platform@ == NodePlatformView::of_system(s@),
    {
        if same_text(s, "darwin") {
            NodePlatform::darwin
        } else if same_text(s, "freebsd") {
            NodePlatform::freebsd
        } else if same_text(s, "openbsd") {
            NodePlatform::openbsd
        } else if same_text(s, "windows") {
            NodePlatform::win32
        } else {
            NodePlatform::unknown(s.to_owned())
        }
    }

    /// The platform's name as a string.
    pub fn to_string(&self) -> (text: String)
        ensures
            text@ == self@.name(),
    {
        match self {
            NodePlatform::darwin => "darwin".to_owned(),
            NodePlatform::freebsd => "freebsd".to_owned(),
            NodePlatform::openbsd => "openbsd".to_owned(),
            NodePlatform::win32 => "win32".to_owned(),
            NodePlatform::unknown(raw) => raw.clone(),
        }
    }
}

} // verus!
