//! The instruction table: an immutable-after-startup mapping from instruction
//! name to required mode, handler action and confirmation text. Registering a
//! name twice overwrites the earlier entry (last write wins).

use vstd::prelude::*;
use crate::mode::Mode;
use crate::strutil::str_eq;
use crate::verification::Artifact;

verus! {

/// What an instruction's handler does when it runs. Handlers never change
/// the current mode: a `Display` handler only emits its confirmation text,
/// and a `Verify` handler additionally marks one artifact verified.
#[derive(Clone, Copy, Debug, PartialEq, Eq, Structural)]
pub enum HandlerAction {
    Display,
    Verify(Artifact),
}

/// One entry of the instruction table.
#[derive(Clone, Copy, Debug)]
pub struct Instruction {
    /// Unique key of the instruction within the table.
    pub name: &'static str,
    /// The only mode in which the instruction may run.
    pub required_mode: Mode,
    /// What the handler does.
    pub action: HandlerAction,
    /// Confirmation text emitted when the handler runs.
    pub message: &'static str,
}

/// The mathematical content of one table entry, keyed by name elsewhere.
pub struct InstrView {
    pub required_mode: Mode,
    pub action: HandlerAction,
    pub message: Seq<char>,
}

impl Instruction {
    /// The entry's content, without its name.
    pub open spec fn view_info(self) -> InstrView {
        InstrView {
            required_mode: self.required_mode,
            action: self.action,
            message: self.message@,
        }
    }
}

/// The mapping that a sequence of registrations denotes: later entries
/// overwrite earlier ones with the same name.
pub open spec fn entries_map(s: Seq<Instruction>) -> Map<Seq<char>, InstrView>
    decreases s.len(),
{
    if s.len() == 0 {
        Map::empty()
    } else {
        entries_map(s.drop_last()).insert(s.last().name@, s.last().view_info())
    }
}

/// The name of every entry is in the mapping's domain, and nothing else is.
proof fn lemma_entries_map_dom(s: Seq<Instruction>)
    ensures
        forall|k: Seq<char>| #[trigger] entries_map(s).contains_key(k)
            <==> exists|i: int| 0 <= i < s.len() && (#[trigger] s[i]).name@ == k,
    decreases s.len(),
{
    if s.len() > 0 {
        lemma_entries_map_dom(s.drop_last());
        assert forall|k: Seq<char>| #[trigger] entries_map(s).contains_key(k)
            implies exists|i: int| 0 <= i < s.len() && (#[trigger] s[i]).name@ == k by {
            if s.last().name@ == k {
                assert(s[s.len() - 1].name@ == k);
            } else {
                assert(entries_map(s) == entries_map(s.drop_last()).insert(
                    s.last().name@,
                    s.last().view_info(),
                ));
                assert(entries_map(s.drop_last()).contains_key(k));
                let i = choose|i: int| 0 <= i < s.drop_last().len()
                    && (#[trigger] s.drop_last()[i]).name@ == k;
                assert(s.drop_last()[i] == s[i]);
                assert(s[i].name@ == k);
            }
        }
        assert forall|k: Seq<char>|
            exists|i: int| 0 <= i < s.len() && (#[trigger] s[i]).name@ == k
            implies #[trigger] entries_map(s).contains_key(k) by {
            let i = choose|i: int| 0 <= i < s.len() && (#[trigger] s[i]).name@ == k;
            assert(entries_map(s) == entries_map(s.drop_last()).insert(
                s.last().name@,
                s.last().view_info(),
            ));
            if i < s.len() - 1 {
                assert(s.drop_last()[i].name@ == k);
                assert(entries_map(s.drop_last()).contains_key(k));
            } else {
                assert(s.last().name@ == k);
            }
        }
    }
}

/// Shorthand for one entry of the boot table.
pub open spec fn entry(required_mode: Mode, action: HandlerAction, message: Seq<char>) -> InstrView {
    InstrView { required_mode, action, message }
}

/// The fixed table built at startup: the general-purpose instructions, legal
/// only in `User` mode, and the privileged stage instructions, each tagged
/// with the earlier mode in which it is legal.
pub open spec fn spec_boot_table() -> Map<Seq<char>, InstrView> {
    Map::<Seq<char>, InstrView>::empty()
        .insert("ADD"@, entry(Mode::User, HandlerAction::Display, "Executed ADD instruction"@))
        .insert("SUB"@, entry(Mode::User, HandlerAction::Display, "Executed SUB instruction"@))
        .insert("MUL"@, entry(Mode::User, HandlerAction::Display, "Executed MUL instruction"@))
        .insert("DIV"@, entry(Mode::User, HandlerAction::Display, "Executed DIV instruction"@))
        .insert("XOR"@, entry(Mode::User, HandlerAction::Display, "Executed XOR instruction"@))
        .insert("AND"@, entry(Mode::User, HandlerAction::Display, "Executed AND instruction"@))
        .insert("OR"@, entry(Mode::User, HandlerAction::Display, "Executed OR instruction"@))
        .insert("MOV"@, entry(Mode::User, HandlerAction::Display, "Executed MOV instruction"@))
        .insert("JMP"@, entry(Mode::User, HandlerAction::Display, "Executed JMP instruction"@))
        .insert("CMP"@, entry(Mode::User, HandlerAction::Display, "Executed CMP instruction"@))
        .insert("INC"@, entry(Mode::User, HandlerAction::Display, "Executed INC instruction"@))
        .insert("DEC"@, entry(Mode::User, HandlerAction::Display, "Executed DEC instruction"@))
        .insert("PUSH"@, entry(Mode::User, HandlerAction::Display, "Executed PUSH instruction"@))
        .insert("POP"@, entry(Mode::User, HandlerAction::Display, "Executed POP instruction"@))
        .insert("CALL"@, entry(Mode::User, HandlerAction::Display, "Executed CALL instruction"@))
        .insert("RET"@, entry(Mode::User, HandlerAction::Display, "Executed RET instruction"@))
        .insert("NOP"@, entry(Mode::User, HandlerAction::Display, "Executed NOP instruction"@))
        .insert("LEA"@, entry(Mode::User, HandlerAction::Display, "Executed LEA instruction"@))
        .insert(
            "init_initial_hw"@,
            entry(Mode::UEFI, HandlerAction::Display, "Initialized UEFI firmware mode"@),
        )
        .insert(
            "verify_bootloader"@,
            entry(Mode::UEFI, HandlerAction::Verify(Artifact::Bootloader), "Verified Bootloader"@),
        )
        .insert(
            "verify_hypervisor"@,
            entry(Mode::UEFI, HandlerAction::Verify(Artifact::Hypervisor), "Verified Hypervisor"@),
        )
        .insert(
            "init_full_hw"@,
            entry(Mode::Hypervisor, HandlerAction::Display, "Hypervisor managed hardware"@),
        )
        .insert(
            "verify_kernel"@,
            entry(
                Mode::Hypervisor,
                HandlerAction::Verify(Artifact::Kernel),
                "Verified Guest OS kernel"@,
            ),
        )
        .insert(
            "verify_filesystem"@,
            entry(
                Mode::Kernel,
                HandlerAction::Verify(Artifact::Filesystem),
                "Verified filesystem"@,
            ),
        )
        .insert(
            "verify_application"@,
            entry(
                Mode::Kernel,
                HandlerAction::Verify(Artifact::Application),
                "Verified Application"@,
            ),
        )
        .insert(
            "start_user_space"@,
            entry(Mode::Kernel, HandlerAction::Display, "User space started"@),
        )
}

/// The instruction table. Built once at startup; `register` may overwrite an
/// entry but nothing is ever removed.
pub struct InstructionRegistry {
    entries: Vec<Instruction>,
}

impl InstructionRegistry {
    /// The mapping from instruction name to entry content that the table
    /// currently denotes.
    pub closed spec fn contents(self) -> Map<Seq<char>, InstrView> {
        entries_map(self.entries@)
    }

    /// A table with no instructions.
    pub fn empty() -> (r: InstructionRegistry)
        ensures
            r.contents() == Map::<Seq<char>, InstrView>::empty(),
    {
        InstructionRegistry { entries: Vec::new() }
    }

    /// The startup table, holding exactly the instructions of
    /// `spec_boot_table`.
    pub fn new() -> (r: InstructionRegistry)
        ensures
            r.contents() == spec_boot_table(),
    {
        let mut r = InstructionRegistry::empty();
        r.register("ADD", Mode::User, HandlerAction::Display, "Executed ADD instruction");
        r.register("SUB", Mode::User, HandlerAction::Display, "Executed SUB instruction");
        r.register("MUL", Mode::User, HandlerAction::Display, "Executed MUL instruction");
        r.register("DIV", Mode::User, HandlerAction::Display, "Executed DIV instruction");
        r.register("XOR", Mode::User, HandlerAction::Display, "Executed XOR instruction");
        r.register("AND", Mode::User, HandlerAction::Display, "Executed AND instruction");
        r.register("OR", Mode::User, HandlerAction::Display, "Executed OR instruction");
        r.register("MOV", Mode::User, HandlerAction::Display, "Executed MOV instruction");
        r.register("JMP", Mode::User, HandlerAction::Display, "Executed JMP instruction");
        r.register("CMP", Mode::User, HandlerAction::Display, "Executed CMP instruction");
        r.register("INC", Mode::User, HandlerAction::Display, "Executed INC instruction");
        r.register("DEC", Mode::User, HandlerAction::Display, "Executed DEC instruction");
        r.register("PUSH", Mode::User, HandlerAction::Display, "Executed PUSH instruction");
        r.register("POP", Mode::User, HandlerAction::Display, "Executed POP instruction");
        r.register("CALL", Mode::User, HandlerAction::Display, "Executed CALL instruction");
        r.register("RET", Mode::User, HandlerAction::Display, "Executed RET instruction");
        r.register("NOP", Mode::User, HandlerAction::Display, "Executed NOP instruction");
        r.register("LEA", Mode::User, HandlerAction::Display, "Executed LEA instruction");
        r.register(
            "init_initial_hw",
            Mode::UEFI,
            HandlerAction::Display,
            "Initialized UEFI firmware mode",
        );
        r.register(
            "verify_bootloader",
            Mode::UEFI,
            HandlerAction::Verify(Artifact::Bootloader),
            "Verified Bootloader",
        );
        r.register(
            "verify_hypervisor",
            Mode::UEFI,
            HandlerAction::Verify(Artifact::Hypervisor),
            "Verified Hypervisor",
        );
        r.register(
            "init_full_hw",
            Mode::Hypervisor,
            HandlerAction::Display,
            "Hypervisor managed hardware",
        );
        r.register(
            "verify_kernel",
            Mode::Hypervisor,
            HandlerAction::Verify(Artifact::Kernel),
            "Verified Guest OS kernel",
        );
        r.register(
            "verify_filesystem",
            Mode::Kernel,
            HandlerAction::Verify(Artifact::Filesystem),
            "Verified filesystem",
        );
        r.register(
            "verify_application",
            Mode::Kernel,
            HandlerAction::Verify(Artifact::Application),
            "Verified Application",
        );
        r.register(
            "start_user_space",
            Mode::Kernel,
            HandlerAction::Display,
            "User space started",
        );
        r
    }

    /// Adds an instruction. A later registration under an already-used name
    /// overwrites the earlier entry.
    pub fn register(
        &mut self,
        name: &'static str,
        required_mode: Mode,
        action: HandlerAction,
        message: &'static str,
    )
        ensures
            final(self).contents() == old(self).contents().insert(
                name@,
                InstrView { required_mode, action, message: message@ },
            ),
    {
        let inst = Instruction { name, required_mode, action, message };
        let ghost before = self.entries@;
        self.entries.push(inst);
        proof {
            assert(self.entries@.drop_last() =~= before);
            assert(self.entries@.last() == inst);
        }
    }

    /// Looks the name up; a pure read. Returns the entry registered last
    /// under that name, or `None` when the name is unknown.
    pub fn lookup(&self, name: &str) -> (r: Option<Instruction>)
        ensures
            match r {
                Option::Some(inst) => self.contents().contains_key(name@)
                    && self.contents()[name@] == inst.view_info()
                    && inst.name@ == name@,
                Option::None => !self.contents().contains_key(name@),
            },
    {
        let mut i = self.entries.len();
        proof {
            assert(self.entries@.take(i as int) =~= self.entries@);
        }
        while i > 0
            invariant
                i <= self.entries@.len(),
                entries_map(self.entries@).contains_key(name@)
                    == entries_map(self.entries@.take(i as int)).contains_key(name@),
                entries_map(self.entries@).contains_key(name@)
                    ==> entries_map(self.entries@)[name@]
                        == entries_map(self.entries@.take(i as int))[name@],
            decreases i,
        {
            i = i - 1;
            let inst = self.entries[i];
            let ghost prefix = self.entries@.take(i + 1);
            proof {
                assert(prefix.drop_last() =~= self.entries@.take(i as int));
                assert(prefix.last() == inst);
            }
            if str_eq(inst.name, name) {
                return Some(inst);
            }
        }
        proof {
            assert(self.entries@.take(0) =~= Seq::<Instruction>::empty());
        }
        None
    }

    /// The names of all registered instructions, in no promised order. A
    /// name is listed iff the table knows it, and each known name stands at
    /// exactly one position: a name that was registered more than once is
    /// still listed once.
    /// During the listing loop, `srcs` records for each listed name the
    /// index of a table entry it came from, and `pos` records for each
    /// listed name's characters its position in the listing.
    pub fn list_names(&self) -> (names: Vec<&'static str>)
        ensures
            forall|k: Seq<char>| #[trigger] self.contents().contains_key(k)
                <==> exists|i: int| 0 <= i < names@.len() && (#[trigger] names@[i])@ == k,
            forall|i: int, j: int| 0 <= i < j < names@.len() ==> names@[i]@ != names@[j]@,
    {
        let mut names: Vec<&'static str> = Vec::new();
        let ghost mut srcs: Seq<int> = Seq::empty();
        let ghost mut pos: Map<Seq<char>, int> = Map::empty();
        let mut i: usize = 0;
        while i < self.entries.len()
            invariant
                i <= self.entries@.len(),
                srcs.len() == names@.len(),
                forall|p: int| #![trigger srcs[p]]
                    0 <= p < srcs.len() ==> 0 <= srcs[p] < i as int
                        && self.entries@[srcs[p]].name@ == names@[p]@,
                forall|q: int| #![trigger self.entries@[q]]
                    0 <= q < i ==> pos.contains_key(self.entries@[q].name@),
                forall|k: Seq<char>| #[trigger] pos.contains_key(k)
                    ==> 0 <= pos[k] < names@.len() && names@[pos[k]]@ == k,
                forall|p: int| #![trigger names@[p]]
                    0 <= p < names@.len() ==> pos.contains_key(names@[p]@),
                forall|p1: int, p2: int| 0 <= p1 < p2 < names@.len()
                    ==> names@[p1]@ != names@[p2]@,
            decreases self.entries@.len() - i,
        {
            let name = self.entries[i].name;
            if !contains_name(&names, name) {
                proof {
                    srcs = srcs.push(i as int);
                    pos = pos.insert(name@, names@.len() as int);
                }
                names.push(name);
            } else {
                proof {
                    let p = choose|p: int| 0 <= p < names@.len()
                        && (#[trigger] names@[p])@ == name@;
                    assert(pos.contains_key(names@[p]@));
                }
            }
            i = i + 1;
        }
        proof {
            lemma_entries_map_dom(self.entries@);
            assert forall|k: Seq<char>| #[trigger] self.contents().contains_key(k)
                implies exists|i: int| 0 <= i < names@.len() && (#[trigger] names@[i])@ == k by {
                let q = choose|q: int| 0 <= q < self.entries@.len()
                    && (#[trigger] self.entries@[q]).name@ == k;
                assert(pos.contains_key(k));
                assert(names@[pos[k]]@ == k);
            }
            assert forall|k: Seq<char>|
                exists|i: int| 0 <= i < names@.len() && (#[trigger] names@[i])@ == k
                implies #[trigger] self.contents().contains_key(k) by {
                let p = choose|p: int| 0 <= p < names@.len() && (#[trigger] names@[p])@ == k;
                assert(self.entries@[srcs[p]].name@ == k);
            }
        }
        names
    }
}

/// Whether one of `names` has the characters of `name`.
fn contains_name(names: &Vec<&'static str>, name: &str) -> (r: bool)
    ensures
        r == exists|q: int| 0 <= q < names@.len() && (#[trigger] names@[q])@ == name@,
{
    let mut p: usize = 0;
    while p < names.len()
        invariant
            p <= names@.len(),
            forall|q: int| 0 <= q < p ==> (#[trigger] names@[q])@ != name@,
        decreases names@.len() - p,
    {
        if str_eq(names[p], name) {
            return true;
        }
        p = p + 1;
    }
    false
}

} // verus!
