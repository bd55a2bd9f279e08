//! The kinds of module the generator emits, and the labels they go by.

use vstd::prelude::*;
use vstd::std_specs::convert::FromSpecImpl;

verus! {

/// One kind of generated module. A Prisma repository is never asked for by
/// itself: it comes with the repository it implements.
#[derive(Clone, Copy, Debug, PartialEq, Eq, Structural)]
pub enum ModuleType {
    Entity,
    Mapper,
    Repository,
    PrismaRepository,
}

/// The label of a kind.
pub open spec fn label_of(kind: ModuleType) -> &'static str {
    match kind {
        ModuleType::Entity => "Entity",
        ModuleType::Mapper => "Mapper",
        ModuleType::Repository => "Repository",
        ModuleType::PrismaRepository => "Prisma repository",
    }
}

/// The kind a label stands for, if it is the label of a kind.
pub open spec fn kind_of(label: Seq<char>) -> Option<ModuleType> {
    if label == "Entity"@ {
        Some(ModuleType::Entity)
    } else if label == "Mapper"@ {
        Some(ModuleType::Mapper)
    } else if label == "Repository"@ {
        Some(ModuleType::Repository)
    } else if label == "Prisma repository"@ {
        Some(ModuleType::PrismaRepository)
    } else {
        None
    }
}

impl ModuleType {
    /// The kind that `value` is the label of; `None` for any other text.
    pub fn from_label(value: &str) -> (r: Option<ModuleType>)
        ensures
            r == kind_of(value@),
    {
        if value.eq("Entity") {
            Some(ModuleType::Entity)
        } else if value.eq("Mapper") {
            Some(ModuleType::Mapper)
        } else if value.eq("Repository") {
            Some(ModuleType::Repository)
        } else if value.eq("Prisma repository") {
            Some(ModuleType::PrismaRepository)
        } else {
            None
        }
    }

    /// The label of this kind.
    pub fn label(self) -> (r: &'static str)
        ensures
            r == label_of(self),
    {
        match self {
            ModuleType::Entity => "Entity",
            ModuleType::Mapper => "Mapper",
            ModuleType::Repository => "Repository",
            ModuleType::PrismaRepository => "Prisma repository",
        }
    }
}

impl From<ModuleType> for &'static str {
    fn from(value: ModuleType) -> (r: Self) {
        value.label()
    }
}

impl FromSpecImpl<ModuleType> for &'static str {
    open spec fn obeys_from_spec() -> bool {
        true
    }

    open spec fn from_spec(value: ModuleType) -> Self {
        label_of(value)
    }
}

/// Every kind is found again from its label.
pub proof fn lemma_label_round_trip(kind: ModuleType)
    ensures
        kind_of(label_of(kind)@) == Some(kind),
{
    reveal_strlit("Entity");
    reveal_strlit("Mapper");
    reveal_strlit("Repository");
    reveal_strlit("Prisma repository");
    match kind {
        ModuleType::Entity => {},
        ModuleType::Mapper => {
            assert("Mapper"@[0] != "Entity"@[0]);
        },
        ModuleType::Repository => {
            assert("Repository"@.len() != "Entity"@.len());
        },
        ModuleType::PrismaRepository => {
            assert("Prisma repository"@.len() > 10);
        },
    }
}

} // verus!
