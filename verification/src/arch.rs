//! Processor architectures, under the names that Node.js gives them.

use crate::text::same_text;
use vstd::prelude::*;

verus! {

/// A processor architecture that Node.js names.
#[allow(non_camel_case_types)]
#[derive(Debug, Clone, Copy, PartialEq, Eq, Structural)]
pub enum NodeArch {
    x32,
    x64,
    ia32,
    arm,
    arm64,
    mips,
    mipsel,
    ppc,
    ppc64,
    s390,
    s390x,
}

impl NodeArch {
    /// The architecture that the first segment of a target triple names, if
    /// the table holds it. The match is exact and case-sensitive.
    ///
    /// The key for `arm64` is spelled `arrch64`. Package names have been
    /// derived from this table as it stands, so the spelling is kept: the
    /// triple segment `aarch64` is not in the table.
    pub open spec fn of_cpu(cpu: Seq<char>) -> Option<NodeArch> {
        if cpu == "x32"@ {
            Some(NodeArch::x32)
        } else if cpu == "x86_64"@ {
            Some(NodeArch::x64)
        } else if cpu == "i686"@ {
            Some(NodeArch::ia32)
        } else if cpu == "armv7"@ {
            Some(NodeArch::arm)
        } else if cpu == "arrch64"@ {
            Some(NodeArch::arm64)
        } else if cpu == "mips"@ {
            Some(NodeArch::mips)
        } else if cpu == "mipsel"@ {
            Some(NodeArch::mipsel)
        } else if cpu == "ppc"@ {
            Some(NodeArch::ppc)
        } else if cpu == "ppc64"@ {
            Some(NodeArch::ppc64)
        } else if cpu == "s390"@ {
            Some(NodeArch::s390)
        } else if cpu == "s390x"@ {
            Some(NodeArch::s390x)
        } else {
            None
        }
    }

    /// The one-word name under which the architecture is shown.
    pub open spec fn name(self) -> Seq<char> {
        match self {
            NodeArch::x32 => "x32"@,
            NodeArch::x64 => "x64"@,
            NodeArch::ia32 => "ia32"@,
            NodeArch::arm => "arm"@,
            NodeArch::arm64 => "arm64"@,
            NodeArch::mips => "mips"@,
            NodeArch::mipsel => "mipsel"@,
            NodeArch::ppc => "ppc"@,
            NodeArch::ppc64 => "ppc64"@,
            NodeArch::s390 => "s390"@,
            NodeArch::s390x => "s390x"@,
        }
    }

    /// Looks the first segment of a target triple up in the table.
    pub fn from_str(s: &str) -> (arch: Option<NodeArch>)
        ensures
            arch == Self::of_cpu(s@),
    {
        if same_text(s, "x32") {
            Some(NodeArch::x32)
        } else if same_text(s, "x86_64") {
            Some(NodeArch::x64)
        } else if same_text(s, "i686") {
            Some(NodeArch::ia32)
        } else if same_text(s, "armv7") {
            Some(NodeArch::arm)
        } else if same_text(s, "arrch64") {
            Some(NodeArch::arm64)
        } else if same_text(s, "mips") {
            Some(NodeArch::mips)
        } else if same_text(s, "mipsel") {
            Some(NodeArch::mipsel)
        } else if same_text(s, "ppc") {
            Some(NodeArch::ppc)
        } else if same_text(s, "ppc64") {
            Some(NodeArch::ppc64)
        } else if same_text(s, "s390") {
            Some(NodeArch::s390)
        } else if same_text(s, "s390x") {
            Some(NodeArch::s390x)
        } else {
            None
        }
    }

    /// The architecture's name as a string.
    pub fn to_string(&self) -> (text: String)
        ensures
            text@ == self.name(),
    {
        match self {
            NodeArch::x32 => "x32".to_owned(),
            NodeArch::x64 => "x64".to_owned(),
            NodeArch::ia32 => "ia32".to_owned(),
            NodeArch::arm => "arm".to_owned(),
            NodeArch::arm64 => "arm64".to_owned(),
            NodeArch::mips => "mips".to_owned(),
            NodeArch::mipsel => "mipsel".to_owned(),
            NodeArch::ppc => "ppc".to_owned(),
            NodeArch::ppc64 => "ppc64".to_owned(),
            NodeArch::s390 => "s390".to_owned(),
            NodeArch::s390x => "s390x".to_owned(),
        }
    }
}

/// The table of [`NodeArch::of_cpu`], entry by entry: no key hides another.
pub proof fn lemma_arch_table(cpu: Seq<char>)
    ensures
        cpu == "x32"@ ==> NodeArch::of_cpu(cpu) == Some(NodeArch::x32),
        cpu == "x86_64"@ ==> NodeArch::of_cpu(cpu) == Some(NodeArch::x64),
        cpu == "i686"@ ==> NodeArch::of_cpu(cpu) == Some(NodeArch::ia32),
        cpu == "armv7"@ ==> NodeArch::of_cpu(cpu) == Some(NodeArch::arm),
        cpu == "arrch64"@ ==> NodeArch::of_cpu(cpu) == Some(NodeArch::arm64),
        cpu == "mips"@ ==> NodeArch::of_cpu(cpu) == Some(NodeArch::mips),
        cpu == "mipsel"@ ==> NodeArch::of_cpu(cpu) == Some(NodeArch::mipsel),
        cpu == "ppc"@ ==> NodeArch::of_cpu(cpu) == Some(NodeArch::ppc),
        cpu == "ppc64"@ ==> NodeArch::of_cpu(cpu) == Some(NodeArch::ppc64),
        cpu == "s390"@ ==> NodeArch::of_cpu(cpu) == Some(NodeArch::s390),
        cpu == "s390x"@ ==> NodeArch::of_cpu(cpu) == Some(NodeArch::s390x),
{
    reveal_strlit("x32");
    reveal_strlit("x86_64");
    reveal_strlit("i686");
    reveal_strlit("armv7");
    reveal_strlit("arrch64");
    reveal_strlit("mips");
    reveal_strlit("mipsel");
    reveal_strlit("ppc");
    reveal_strlit("ppc64");
    reveal_strlit("s390");
    reveal_strlit("s390x");
    assert("x32"@.len() == 3 && "x32"@[0] == 'x');
    assert("ppc"@.len() == 3 && "ppc"@[0] == 'p');
    assert("i686"@.len() == 4 && "i686"@[0] == 'i');
    assert("mips"@.len() == 4 && "mips"@[0] == 'm');
    assert("s390"@.len() == 4 && "s390"@[0] == 's');
    assert("armv7"@.len() == 5 && "armv7"@[0] == 'a');
    assert("ppc64"@.len() == 5 && "ppc64"@[0] == 'p');
    assert("s390x"@.len() == 5 && "s390x"@[0] == 's');
    assert("x86_64"@.len() == 6 && "x86_64"@[0] == 'x');
    assert("mipsel"@.len() == 6 && "mipsel"@[0] == 'm');
    assert("arrch64"@.len() == 7);
}

} // verus!
