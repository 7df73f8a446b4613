//! Install planning: the enable and disable contexts collect discovered
//! units, and applying them yields the symlinks to create and the names to
//! unlink.  Performing the filesystem work is the caller's concern.

use crate::preset::{
    rules_action_from, PresetAction, PresetMode, Presets, UnitFileType, UnitInstall,
};
use vstd::prelude::*;
use vstd::string::StringExecFns;

verus! {

/// A planned symlink: create `target` pointing at `source`; when
/// `ensure_parent` is set the target's parent directory is created first.
#[derive(Debug)]
pub struct SymlinkReq {
    /// What the link points at.
    pub source: String,
    /// The link to create.
    pub target: String,
    /// Whether the link's parent directory must be created first.
    pub ensure_parent: bool,
}

impl View for SymlinkReq {
    type V = (Seq<char>, Seq<char>, bool);

    open spec fn view(&self) -> (Seq<char>, Seq<char>, bool) {
        (self.source@, self.target@, self.ensure_parent)
    }
}

impl DeepView for SymlinkReq {
    type V = (Seq<char>, Seq<char>, bool);

    open spec fn deep_view(&self) -> (Seq<char>, Seq<char>, bool) {
        self.view()
    }
}

/// The links that aliases ask for: one per alias, right in the target
/// directory.
pub open spec fn alias_plan(src: Seq<char>, tp: Seq<char>, names: Seq<Seq<char>>) -> Seq<
    (Seq<char>, Seq<char>, bool),
> {
    Seq::new(names.len(), |j: int| (src, tp + "/"@ + names[j], false))
}

/// The links a wants- or requires-style dependency asks for: one per
/// depending target, inside that target's `.suffix` directory.
pub open spec fn wants_plan(
    src: Seq<char>,
    tp: Seq<char>,
    suffix: Seq<char>,
    name: Seq<char>,
    targets: Seq<Seq<char>>,
) -> Seq<(Seq<char>, Seq<char>, bool)> {
    Seq::new(
        targets.len(),
        |j: int| (src, tp + "/"@ + targets[j] + "."@ + suffix + "/"@ + name, true),
    )
}

/// Everything one unit's install section asks for: aliases, then wants,
/// then requires.
pub open spec fn unit_plan(u: UnitInstall, tp: Seq<char>) -> Seq<(Seq<char>, Seq<char>, bool)> {
    alias_plan(u.path@, tp, u.aliases.deep_view()) + wants_plan(
        u.path@,
        tp,
        "wants"@,
        u.name@,
        u.wanted_by.deep_view(),
    ) + wants_plan(u.path@, tp, "requires"@, u.name@, u.required_by.deep_view())
}

/// The entries among the first `k` that stay queued: those whose file is
/// not a regular one.
pub open spec fn kept_prefix(will: Seq<UnitInstall>, k: int) -> Seq<UnitInstall>
    decreases k,
{
    if k <= 0 {
        Seq::empty()
    } else if will[k - 1].u_type is Regular {
        kept_prefix(will, k - 1)
    } else {
        kept_prefix(will, k - 1).push(will[k - 1])
    }
}

/// The entries among the first `k` that are applied: the regular ones.
pub open spec fn moved_prefix(will: Seq<UnitInstall>, k: int) -> Seq<UnitInstall>
    decreases k,
{
    if k <= 0 {
        Seq::empty()
    } else if will[k - 1].u_type is Regular {
        moved_prefix(will, k - 1).push(will[k - 1])
    } else {
        moved_prefix(will, k - 1)
    }
}

/// The links the first `k` entries ask for, regular entries only.
pub open spec fn plan_prefix(will: Seq<UnitInstall>, k: int, tp: Seq<char>) -> Seq<
    (Seq<char>, Seq<char>, bool),
>
    decreases k,
{
    if k <= 0 {
        Seq::empty()
    } else if will[k - 1].u_type is Regular {
        plan_prefix(will, k - 1, tp) + unit_plan(will[k - 1], tp)
    } else {
        plan_prefix(will, k - 1, tp)
    }
}

/// The removal names after the first `k` entries contributed theirs, each
/// name once.
pub open spec fn removal_names(rem: Seq<Seq<char>>, will: Seq<UnitInstall>, k: int) -> Seq<
    Seq<char>,
>
    decreases k,
{
    if k <= 0 {
        rem
    } else {
        let prev = removal_names(rem, will, k - 1);
        if prev.contains(will[k - 1].name@) {
            prev
        } else {
            prev.push(will[k - 1].name@)
        }
    }
}

/// Whether some entry carries the name.
pub open spec fn names_contain(s: Seq<UnitInstall>, n: Seq<char>) -> bool {
    exists|i: int| 0 <= i < s.len() && s[i].name@ == n
}

/// One side's install bookkeeping: what has been applied and what waits.
#[derive(Debug)]
pub struct InstallContext {
    /// Units already applied.
    pub processed: Vec<UnitInstall>,
    /// Units discovered and waiting.
    pub will_process: Vec<UnitInstall>,
}

impl InstallContext {
    /// An empty context.
    pub fn new() -> (r: InstallContext)
        ensures
            r.processed@.len() == 0,
            r.will_process@.len() == 0,
    {
        InstallContext { processed: Vec::new(), will_process: Vec::new() }
    }

    /// Whether the unit was discovered on this side, applied or waiting.
    pub fn installed_unit(&self, unit: &str) -> (r: bool)
        ensures
            r == (names_contain(self.processed@, unit@) || names_contain(
                self.will_process@,
                unit@,
            )),
    {
        let u = unit.to_owned();
        let mut i: usize = 0;
        while i < self.processed.len()
            invariant
                u@ == unit@,
                i <= self.processed@.len(),
                forall|j: int| 0 <= j < i ==> self.processed@[j].name@ != unit@,
            decreases self.processed.len() - i,
        {
            if self.processed[i].name == u {
                return true;
            }
            i = i + 1;
        }
        let mut i: usize = 0;
        while i < self.will_process.len()
            invariant
                u@ == unit@,
                i <= self.will_process@.len(),
                forall|j: int| 0 <= j < i ==> self.will_process@[j].name@ != unit@,
            decreases self.will_process.len() - i,
        {
            if self.will_process[i].name == u {
                return true;
            }
            i = i + 1;
        }
        false
    }

    /// The index of the waiting entry with the given name, if any.
    pub fn unit_install(&self, name: &str) -> (r: Option<usize>)
        ensures
            match r {
                Some(i) => i < self.will_process@.len() && self.will_process@[i as int].name@
                    == name@,
                None => !names_contain(self.will_process@, name@),
            },
    {
        let n = name.to_owned();
        let mut i: usize = 0;
        while i < self.will_process.len()
            invariant
                n@ == name@,
                i <= self.will_process@.len(),
                forall|j: int| 0 <= j < i ==> self.will_process@[j].name@ != name@,
            decreases self.will_process.len() - i,
        {
            if self.will_process[i].name == n {
                return Some(i);
            }
            i = i + 1;
        }
        None
    }

    /// Queue a unit's install record; a record queued under the same name
    /// before is replaced.
    pub fn add_unit_install(&mut self, unit: &str, unit_install: UnitInstall)
        ensures
            final(self).processed == old(self).processed,
            names_contain(final(self).will_process@, unit@) || exists|i: int|
                0 <= i < final(self).will_process@.len() && final(self).will_process@[i]
                    == unit_install,
            exists|i: int|
                0 <= i < final(self).will_process@.len() && #[trigger] final(self).will_process@[i]
                    == unit_install,
    {
        match self.unit_install(unit) {
            Some(i) => {
                self.will_process.set(i, unit_install);
                proof {
                    assert(final(self).will_process@[i as int] == unit_install);
                }
            }
            None => {
                self.will_process.push(unit_install);
                proof {
                    let t = self.will_process@;
                    assert(t[t.len() - 1] == unit_install);
                }
            }
        }
    }

    /// Make sure a waiting record exists for the unit, creating a fresh
    /// one on first sight.
    pub fn prepare_unit_install(&mut self, unit: &str)
        ensures
            final(self).processed == old(self).processed,
            names_contain(final(self).will_process@, unit@) || names_contain(
                final(self).processed@,
                unit@,
            ),
    {
        if self.installed_unit(unit) {
            return ;
        }
        let fresh = UnitInstall::new(unit);
        self.will_process.push(fresh);
        proof {
            let t = self.will_process@;
            assert(t[t.len() - 1].name@ == unit@);
        }
    }

    /// Move every waiting unit to the applied side, contributing its name
    /// to the removal set, each name once.
    pub fn collect_disable_install(&mut self, removal_symlinks: &mut Vec<String>)
        ensures
            final(self).will_process@.len() == 0,
            final(self).processed@ == old(self).processed@ + old(self).will_process@,
            final(removal_symlinks).deep_view() == removal_names(
                old(removal_symlinks).deep_view(),
                old(self).will_process@,
                old(self).will_process@.len() as int,
            ),
    {
        let mut pending: Vec<UnitInstall> = Vec::new();
        core::mem::swap(&mut pending, &mut self.will_process);
        let ghost will0 = pending@;
        let mut k: usize = 0;
        let n = pending.len();
        while k < n
            invariant
                n == will0.len(),
                pending@ =~= will0.subrange(k as int, will0.len() as int),
                k <= n,
                self.will_process@.len() == 0,
                self.processed@ == old(self).processed@ + will0.subrange(0, k as int),
                removal_symlinks.deep_view() == removal_names(
                    old(removal_symlinks).deep_view(),
                    will0,
                    k as int,
                ),
            decreases n - k,
        {
            let entry = pending.remove(0);
            proof {
                assert(entry == will0[k as int]);
                assert(pending@ =~= will0.subrange(k + 1, will0.len() as int));
            }
            let name = entry.name();
            let mut present = false;
            let mut j: usize = 0;
            while j < removal_symlinks.len()
                invariant
                    k < will0.len(),
                    name@ == will0[k as int].name@,
                    j <= removal_symlinks@.len(),
                    present == (exists|p: int|
                        0 <= p < j && removal_symlinks@[p]@ == will0[k as int].name@),
                decreases removal_symlinks.len() - j,
            {
                if removal_symlinks[j] == name {
                    present = true;
                }
                j = j + 1;
            }
            proof {
                let dv = removal_symlinks.deep_view();
                if present {
                    let p = choose|p: int|
                        0 <= p < removal_symlinks@.len() && removal_symlinks@[p]@ == will0[
                            k as int
                        ].name@;
                    assert(dv[p] == will0[k as int].name@);
                    assert(dv.contains(will0[k as int].name@));
                } else {
                    if dv.contains(will0[k as int].name@) {
                        let p = choose|p: int| 0 <= p < dv.len() && dv[p] == will0[k as int].name@;
                        assert(removal_symlinks@[p]@ == will0[k as int].name@);
                        assert(false);
                    }
                }
                assert(present == dv.contains(will0[k as int].name@));
            }
            let ghost rem0 = removal_symlinks.deep_view();
            if !present {
                removal_symlinks.push(name);
                proof {
                    assert(removal_symlinks.deep_view() =~= rem0.push(will0[k as int].name@));
                }
            }
            let ghost proc0 = self.processed@;
            self.processed.push(entry);
            proof {
                assert(self.processed@ =~= old(self).processed@ + will0.subrange(0, k + 1));
            }
            k = k + 1;
        }
        proof {
            assert(will0.subrange(0, will0.len() as int) =~= will0);
        }
    }

    /// The links one unit's aliases ask for.
    pub fn install_symlinks_alias(
        &self,
        install: &UnitInstall,
        target_path: &str,
        symlinks: &Vec<String>,
    ) -> (r: Vec<SymlinkReq>)
        ensures
            r.deep_view() == alias_plan(install.path@, target_path@, symlinks.deep_view()),
    {
        let mut r: Vec<SymlinkReq> = Vec::new();
        let mut j: usize = 0;
        while j < symlinks.len()
            invariant
                j <= symlinks@.len(),
                r@.len() == j,
                forall|p: int|
                    0 <= p < j ==> (#[trigger] r@[p]).source@ == install.path@ && r@[p].target@
                        == target_path@ + "/"@ + symlinks@[p]@ && !r@[p].ensure_parent,
            decreases symlinks.len() - j,
        {
            let target = target_path.to_owned().concat("/").concat(symlinks[j].as_str());
            r.push(SymlinkReq { source: install.path.clone(), target, ensure_parent: false });
            j = j + 1;
        }
        proof {
            assert forall|p: int| 0 <= p < r@.len() implies r.deep_view()[p] == alias_plan(
                install.path@,
                target_path@,
                symlinks.deep_view(),
            )[p] by {
                assert(r@[p].source@ == install.path@);
            }
            assert(r.deep_view() =~= alias_plan(
                install.path@,
                target_path@,
                symlinks.deep_view(),
            ));
        }
        r
    }

    /// The links one unit's wants- or requires-style dependencies ask for.
    pub fn install_symlinks_wants(
        &self,
        install: &UnitInstall,
        target_path: &str,
        suffix: &str,
        symlinks: &Vec<String>,
    ) -> (r: Vec<SymlinkReq>)
        ensures
            r.deep_view() == wants_plan(
                install.path@,
                target_path@,
                suffix@,
                install.name@,
                symlinks.deep_view(),
            ),
    {
        let mut r: Vec<SymlinkReq> = Vec::new();
        let mut j: usize = 0;
        while j < symlinks.len()
            invariant
                j <= symlinks@.len(),
                r@.len() == j,
                forall|p: int|
                    0 <= p < j ==> (#[trigger] r@[p]).source@ == install.path@ && r@[p].target@
                        == target_path@ + "/"@ + symlinks@[p]@ + "."@ + suffix@ + "/"@
                        + install.name@ && r@[p].ensure_parent,
            decreases symlinks.len() - j,
        {
            let target = target_path.to_owned().concat("/").concat(symlinks[j].as_str()).concat(
                ".",
            ).concat(suffix).concat("/").concat(install.name.as_str());
            r.push(SymlinkReq { source: install.path.clone(), target, ensure_parent: true });
            j = j + 1;
        }
        proof {
            assert forall|p: int| 0 <= p < r@.len() implies r.deep_view()[p] == wants_plan(
                install.path@,
                target_path@,
                suffix@,
                install.name@,
                symlinks.deep_view(),
            )[p] by {
                assert(r@[p].source@ == install.path@);
            }
            assert(r.deep_view() =~= wants_plan(
                install.path@,
                target_path@,
                suffix@,
                install.name@,
                symlinks.deep_view(),
            ));
        }
        r
    }

    /// Everything one unit's install section asks for.
    pub fn install_symlinks(&self, install: &UnitInstall, target_path: &str) -> (r: Vec<
        SymlinkReq,
    >)
        ensures
            r.deep_view() == unit_plan(*install, target_path@),
    {
        let mut r = self.install_symlinks_alias(install, target_path, &install.aliases);
        let mut w = self.install_symlinks_wants(install, target_path, "wants", &install.wanted_by);
        let mut q = self.install_symlinks_wants(
            install,
            target_path,
            "requires",
            &install.required_by,
        );
        let ghost a_view = r.deep_view();
        let ghost w_view = w.deep_view();
        let ghost q_view = q.deep_view();
        r.append(&mut w);
        proof {
            assert(r.deep_view() =~= a_view + w_view);
        }
        let ghost rw_view = r.deep_view();
        r.append(&mut q);
        proof {
            assert(r.deep_view() =~= rw_view + q_view);
            assert(r.deep_view() =~= unit_plan(*install, target_path@));
        }
        r
    }

    /// Apply every waiting unit whose file is regular: it moves to the
    /// applied side and contributes its planned links; anything else stays
    /// waiting, as found.
    pub fn apply_enable_unit_install(&mut self, target_path: &str) -> (r: Vec<SymlinkReq>)
        ensures
            final(self).will_process@ == kept_prefix(
                old(self).will_process@,
                old(self).will_process@.len() as int,
            ),
            final(self).processed@ == old(self).processed@ + moved_prefix(
                old(self).will_process@,
                old(self).will_process@.len() as int,
            ),
            r.deep_view() == plan_prefix(
                old(self).will_process@,
                old(self).will_process@.len() as int,
                target_path@,
            ),
    {
        let mut pending: Vec<UnitInstall> = Vec::new();
        core::mem::swap(&mut pending, &mut self.will_process);
        let ghost will0 = pending@;
        let mut links: Vec<SymlinkReq> = Vec::new();
        let mut k: usize = 0;
        let n = pending.len();
        while k < n
            invariant
                n == will0.len(),
                pending@ =~= will0.subrange(k as int, will0.len() as int),
                k <= n,
                self.will_process@ == kept_prefix(will0, k as int),
                self.processed@ == old(self).processed@ + moved_prefix(will0, k as int),
                links.deep_view() == plan_prefix(will0, k as int, target_path@),
            decreases n - k,
        {
            let entry = pending.remove(0);
            proof {
                assert(entry == will0[k as int]);
                assert(pending@ =~= will0.subrange(k + 1, will0.len() as int));
            }
            let is_regular = match entry.u_type {
                UnitFileType::Regular => true,
                _ => false,
            };
            if is_regular {
                let mut plan = self.install_symlinks(&entry, target_path);
                let ghost l0 = links.deep_view();
                let ghost p0 = plan.deep_view();
                links.append(&mut plan);
                proof {
                    assert(links.deep_view() =~= l0 + p0);
                }
                let ghost proc0 = self.processed@;
                self.processed.push(entry);
                proof {
                    assert(self.processed@ =~= old(self).processed@ + moved_prefix(
                        will0,
                        k + 1,
                    ));
                }
            } else {
                let ghost wp0 = self.will_process@;
                self.will_process.push(entry);
                proof {
                    assert(self.will_process@ =~= kept_prefix(will0, k + 1));
                }
            }
            k = k + 1;
        }
        links
    }
}

/// The preset application as a whole: both contexts and the mode.
#[derive(Debug)]
pub struct Install {
    /// Whether this run enables or disables.
    pub mode: PresetMode,
    /// The units the rules enable.
    pub enable_ctx: InstallContext,
    /// The units the rules disable.
    pub disable_ctx: InstallContext,
}

impl Install {
    /// A fresh application in the given mode.
    pub fn new(p_mode: PresetMode) -> (r: Install)
        ensures
            r.mode == p_mode,
            r.enable_ctx.processed@.len() == 0,
            r.enable_ctx.will_process@.len() == 0,
            r.disable_ctx.processed@.len() == 0,
            r.disable_ctx.will_process@.len() == 0,
    {
        Install {
            mode: p_mode,
            enable_ctx: InstallContext::new(),
            disable_ctx: InstallContext::new(),
        }
    }

    /// Whether the unit was discovered on either side.
    pub fn installed_unit(&self, unit: &str) -> (r: bool)
        ensures
            r == (names_contain(self.enable_ctx.processed@, unit@) || names_contain(
                self.enable_ctx.will_process@,
                unit@,
            ) || names_contain(self.disable_ctx.processed@, unit@) || names_contain(
                self.disable_ctx.will_process@,
                unit@,
            )),
    {
        self.enable_ctx.installed_unit(unit) || self.disable_ctx.installed_unit(unit)
    }

    /// Decide one unit file: nothing is owed for a unit already
    /// discovered; otherwise the rules' action says which side discovery
    /// belongs to — enabled and undecided units to the enable side,
    /// disabled ones to the disable side.
    pub fn preset_one_file(&self, unit: &str, presets: &Presets) -> (r: Option<PresetAction>)
        ensures
            (r is None) == (names_contain(self.enable_ctx.processed@, unit@) || names_contain(
                self.enable_ctx.will_process@,
                unit@,
            ) || names_contain(self.disable_ctx.processed@, unit@) || names_contain(
                self.disable_ctx.will_process@,
                unit@,
            )),
            r matches Some(a) ==> a == rules_action_from(presets.rules@, unit@, 0),
    {
        if self.installed_unit(unit) {
            return None;
        }
        Some(presets.unit_preset_action(unit.to_owned()))
    }

    /// Make sure a record exists on the chosen side.
    pub fn prepare_unit_install(&mut self, unit: &str, enable: bool)
        ensures
            enable ==> final(self).disable_ctx == old(self).disable_ctx && (names_contain(
                final(self).enable_ctx.will_process@,
                unit@,
            ) || names_contain(final(self).enable_ctx.processed@, unit@)),
            !enable ==> final(self).enable_ctx == old(self).enable_ctx && (names_contain(
                final(self).disable_ctx.will_process@,
                unit@,
            ) || names_contain(final(self).disable_ctx.processed@, unit@)),
    {
        if enable {
            self.enable_ctx.prepare_unit_install(unit);
        } else {
            self.disable_ctx.prepare_unit_install(unit);
        }
    }

    /// Execute the preset run: in disable-capable modes the disable side
    /// yields the names to unlink; in enable-capable modes the enable side
    /// yields the links to create.
    pub fn execute_preset(&mut self, target_path: &str) -> (r: (Vec<String>, Vec<SymlinkReq>))
        ensures
            old(self).mode is Disable ==> r.0.deep_view() == removal_names(
                Seq::empty(),
                old(self).disable_ctx.will_process@,
                old(self).disable_ctx.will_process@.len() as int,
            ) && r.1@.len() == 0,
            old(self).mode is Enable ==> r.0@.len() == 0 && r.1.deep_view() == plan_prefix(
                old(self).enable_ctx.will_process@,
                old(self).enable_ctx.will_process@.len() as int,
                target_path@,
            ),
    {
        let mut removals: Vec<String> = Vec::new();
        let is_enable = match self.mode {
            PresetMode::Enable => true,
            PresetMode::Disable => false,
        };
        if !is_enable {
            proof {
                assert(removals.deep_view() =~= Seq::<Seq<char>>::empty());
            }
            self.disable_ctx.collect_disable_install(&mut removals);
        }
        let links: Vec<SymlinkReq> = if is_enable {
            self.enable_ctx.apply_enable_unit_install(target_path)
        } else {
            Vec::new()
        };
        (removals, links)
    }

    /// The links the enable side owes.
    pub fn install_symlinks(&mut self, target_path: &str) -> (r: Vec<SymlinkReq>)
        ensures
            r.deep_view() == plan_prefix(
                old(self).enable_ctx.will_process@,
                old(self).enable_ctx.will_process@.len() as int,
                target_path@,
            ),
    {
        self.enable_ctx.apply_enable_unit_install(target_path)
    }
}

} // verus!
