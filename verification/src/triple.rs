//! Target triples, taken apart into the names that a distribution package of
//! a native add-on is called by.

use crate::arch::{lemma_arch_table, NodeArch};
use crate::platform::{NodePlatform, NodePlatformView};
use crate::text::{segments, split};
use vstd::prelude::*;

verus! {

/// Why a target triple could not be taken apart.
#[derive(Debug, Clone)]
pub enum TripleError {
    /// The triple has fewer than three segments. Holds the triple.
    MalformedTriple(String),
    /// The first segment names no architecture of the table. Holds the segment.
    UnsupportedArchitecture(String),
}

/// What a [`TripleError`] stands for in contracts.
pub enum TripleErrorView {
    MalformedTriple(Seq<char>),
    UnsupportedArchitecture(Seq<char>),
}

impl View for TripleError {
    type V = TripleErrorView;

    open spec fn view(&self) -> TripleErrorView {
        match self {
            TripleError::MalformedTriple(triple) => TripleErrorView::MalformedTriple(triple@),
            TripleError::UnsupportedArchitecture(cpu) => TripleErrorView::UnsupportedArchitecture(
                cpu@,
            ),
        }
    }
}

/// A target triple `<cpu>-<vendor>-<system>[-<abi>]` and the names derived from it.
#[derive(Debug, Clone)]
pub struct PlatformDetail {
    /// The triple as it was given.
    pub triple: String,
    /// The name of the distribution package's platform: see [`platform_abi`].
    pub platform_abi: String,
    pub arch: NodeArch,
    pub platform: NodePlatform,
    /// The fourth segment of the triple, if it has one.
    pub abi: Option<String>,
}

/// What a [`PlatformDetail`] stands for in contracts.
pub struct PlatformDetailView {
    pub triple: Seq<char>,
    pub platform_abi: Seq<char>,
    pub arch: NodeArch,
    pub platform: NodePlatformView,
    pub abi: Option<Seq<char>>,
}

impl View for PlatformDetail {
    type V = PlatformDetailView;

    open spec fn view(&self) -> PlatformDetailView {
        PlatformDetailView {
            triple: self.triple@,
            platform_abi: self.platform_abi@,
            arch: self.arch,
            platform: self.platform@,
            abi: self.abi.deep_view(),
        }
    }
}

/// `<platform>-<arch>`, followed by `-<abi>` where there is an ABI.
pub open spec fn platform_abi(platform: NodePlatformView, arch: NodeArch, abi: Option<Seq<char>>) -> Seq<
    char,
> {
    let base = platform.name() + seq!['-'] + arch.name();
    match abi {
        Some(abi) => base + seq!['-'] + abi,
        None => base,
    }
}

impl PlatformDetailView {
    /// The platform name is the one that the architecture, the platform and
    /// the ABI give.
    pub open spec fn wf(self) -> bool {
        self.platform_abi == platform_abi(self.platform, self.arch, self.abi)
    }

    /// What a target triple is taken apart into.
    ///
    /// The triple is cut at every `-`. The first segment is the cpu, the
    /// third the system, the fourth, if there is one, the ABI; the vendor and
    /// any segment after the fourth are not looked at. A triple of fewer than
    /// three segments is malformed; a cpu outside the table of
    /// [`NodeArch::of_cpu`] is unsupported.
    pub open spec fn parse(triple: Seq<char>) -> Result<PlatformDetailView, TripleErrorView> {
        let parts = segments(triple, '-');
        if parts.len() < 3 {
            Err(TripleErrorView::MalformedTriple(triple))
        } else {
            match NodeArch::of_cpu(parts[0]) {
                None => Err(TripleErrorView::UnsupportedArchitecture(parts[0])),
                Some(arch) => {
                    let platform = NodePlatformView::of_system(parts[2]);
                    let abi = if parts.len() > 3 {
                        Some(parts[3])
                    } else {
                        None
                    };
                    Ok(
                        PlatformDetailView {
                            triple,
                            platform_abi: platform_abi(platform, arch, abi),
                            arch,
                            platform,
                            abi,
                        },
                    )
                },
            }
        }
    }
}

/// A triple of at least three segments whose first segment is a cpu of the
/// table is taken apart, and the architecture that is found is shown under
/// the Node.js name of that cpu.
pub proof fn lemma_arch_names(triple: Seq<char>)
    requires
        segments(triple, '-').len() >= 3,
    ensures
        ({
            let cpu = segments(triple, '-')[0];
            let found = PlatformDetailView::parse(triple);
            &&& cpu == "x32"@ ==> found is Ok && found->Ok_0.arch.name() == "x32"@
            &&& cpu == "x86_64"@ ==> found is Ok && found->Ok_0.arch.name() == "x64"@
            &&& cpu == "i686"@ ==> found is Ok && found->Ok_0.arch.name() == "ia32"@
            &&& cpu == "armv7"@ ==> found is Ok && found->Ok_0.arch.name() == "arm"@
            &&& cpu == "arrch64"@ ==> found is Ok && found->Ok_0.arch.name() == "arm64"@
            &&& cpu == "mips"@ ==> found is Ok && found->Ok_0.arch.name() == "mips"@
            &&& cpu == "mipsel"@ ==> found is Ok && found->Ok_0.arch.name() == "mipsel"@
            &&& cpu == "ppc"@ ==> found is Ok && found->Ok_0.arch.name() == "ppc"@
            &&& cpu == "ppc64"@ ==> found is Ok && found->Ok_0.arch.name() == "ppc64"@
            &&& cpu == "s390"@ ==> found is Ok && found->Ok_0.arch.name() == "s390"@
            &&& cpu == "s390x"@ ==> found is Ok && found->Ok_0.arch.name() == "s390x"@
        }),
{
    lemma_arch_table(segments(triple, '-')[0]);
}

/// A triple of fewer than three segments is malformed, whatever its first
/// segment is. One of three or more segments is unsupported where its first
/// segment is no cpu of the table, and is taken apart where it is one.
pub proof fn lemma_parse_errors(triple: Seq<char>)
    ensures
        ({
            let parts = segments(triple, '-');
            let found = PlatformDetailView::parse(triple);
            &&& parts.len() < 3 ==> found == Err::<PlatformDetailView, _>(
                TripleErrorView::MalformedTriple(triple),
            )
            &&& parts.len() >= 3 && NodeArch::of_cpu(parts[0]) is None ==> found == Err::<
                PlatformDetailView,
                _,
            >(TripleErrorView::UnsupportedArchitecture(parts[0]))
            &&& parts.len() >= 3 && NodeArch::of_cpu(parts[0]) is Some ==> found is Ok
        }),
{
}

/// What is taken apart holds the triple itself, and the platform name that
/// its architecture, platform and ABI give.
pub proof fn lemma_parse_wf(triple: Seq<char>)
    ensures
        PlatformDetailView::parse(triple) matches Ok(detail) ==> detail.wf() && detail.triple
            == triple,
{
}

/// What the outcome of [`PlatformDetail::from`] stands for in contracts.
pub open spec fn outcome_view(outcome: Result<PlatformDetail, TripleError>) -> Result<
    PlatformDetailView,
    TripleErrorView,
> {
    match outcome {
        Ok(detail) => Ok(detail@),
        Err(error) => Err(error@),
    }
}

impl PlatformDetail {
    /// Takes a target triple apart.
    pub fn from(triple: &str) -> (outcome: Result<PlatformDetail, TripleError>)
        ensures
            outcome_view(outcome) == PlatformDetailView::parse(triple@),
            outcome matches Ok(detail) ==> detail@.wf(),
    {
        let parts = split(triple, '-');
        if parts.len() < 3 {
            return Err(TripleError::MalformedTriple(triple.to_owned()));
        }
        let cpu = parts[0];
        let system = parts[2];
        let arch = match NodeArch::from_str(cpu) {
            Some(arch) => arch,
            None => {
                return Err(TripleError::UnsupportedArchitecture(cpu.to_owned()));
            },
        };
        let platform = NodePlatform::from_str(system);
        let mut name = platform.to_string();
        name.append("-");
        name.append(arch.to_string().as_str());
        let abi = if parts.len() > 3 {
            name.append("-");
            name.append(parts[3]);
            Some(parts[3].to_owned())
        } else {
            None
        };
        proof {
            reveal_strlit("-");
            assert("-"@ == seq!['-']);
        }
        Ok(PlatformDetail { triple: triple.to_owned(), platform_abi: name, arch, platform, abi })
    }
}

} // verus!
