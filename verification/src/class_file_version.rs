use vstd::prelude::*;

verus! {

/// The class file versions this loader knows, by their major version number.
#[derive(Debug, Clone, Copy, PartialEq, Eq, Structural)]
pub enum ClassFileVersion {
    Jdk5,
    Jdk7,
    Jdk8,
    Jdk17,
    Jdk21,
    Jdk22,
}

impl ClassFileVersion {
    /// The major version number of this class file version.
    pub open spec fn spec_major(self) -> u16 {
        match self {
            ClassFileVersion::Jdk5 => 49,
            ClassFileVersion::Jdk7 => 51,
            ClassFileVersion::Jdk8 => 52,
            ClassFileVersion::Jdk17 => 61,
            ClassFileVersion::Jdk21 => 65,
            ClassFileVersion::Jdk22 => 66,
        }
    }

    /// The major version number of this class file version.
    pub fn major(&self) -> (r: u16)
        ensures
            r == self.spec_major(),
    {
        match self {
            ClassFileVersion::Jdk5 => 49,
            ClassFileVersion::Jdk7 => 51,
            ClassFileVersion::Jdk8 => 52,
            ClassFileVersion::Jdk17 => 61,
            ClassFileVersion::Jdk21 => 65,
            ClassFileVersion::Jdk22 => 66,
        }
    }

    /// The known version with the given major version number, if any.
    pub fn from_repr(major: u16) -> (r: Option<Self>)
        ensures
            r matches Some(v) ==> v.spec_major() == major,
            r is None ==> forall|v: ClassFileVersion| v.spec_major() != major,
    {
        if major == 49 {
            Some(ClassFileVersion::Jdk5)
        } else if major == 51 {
            Some(ClassFileVersion::Jdk7)
        } else if major == 52 {
            Some(ClassFileVersion::Jdk8)
        } else if major == 61 {
            Some(ClassFileVersion::Jdk17)
        } else if major == 65 {
            Some(ClassFileVersion::Jdk21)
        } else if major == 66 {
            Some(ClassFileVersion::Jdk22)
        } else {
            None
        }
    }
}

} // verus!
