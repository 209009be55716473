//! Character skins and the side each one belongs to. Skins are purely
//! cosmetic: every skin shares the same hit zones.
use vstd::prelude::*;
use crate::text::str_eq;

verus! {

/// Team side; decides which team can use a skin or a weapon.
#[derive(Clone, Copy, PartialEq, Eq, Debug, Structural)]
pub enum PlayerSide {
    Attacker,
    Defender,
    /// Usable by either team.
    Any,
}

impl PlayerSide {
    pub open spec fn spec_name(self) -> Seq<char> {
        match self {
            PlayerSide::Attacker => "Attacker"@,
            PlayerSide::Defender => "Defender"@,
            PlayerSide::Any => "Any"@,
        }
    }

    pub fn name(&self) -> (r: &'static str)
        ensures
            r@ == self.spec_name(),
    {
        match self {
            PlayerSide::Attacker => "Attacker",
            PlayerSide::Defender => "Defender",
            PlayerSide::Any => "Any",
        }
    }
}

/// Unique identifier of a skin.
#[derive(Clone, Copy, PartialEq, Eq, Debug, Hash, Structural)]
pub enum SkinId {
    Soldier,
    Police,
}

impl Default for SkinId {
    fn default() -> (r: Self)
        ensures
            r == SkinId::Soldier,
    {
        SkinId::Soldier
    }
}

impl SkinId {
    pub fn all() -> (r: Vec<SkinId>)
        ensures
            r@ == seq![SkinId::Soldier, SkinId::Police],
    {
        let mut v: Vec<SkinId> = Vec::new();
        v.push(SkinId::Soldier);
        v.push(SkinId::Police);
        v
    }

    pub open spec fn spec_key(self) -> Seq<char> {
        match self {
            SkinId::Soldier => "soldier"@,
            SkinId::Police => "police"@,
        }
    }

    /// Stable identifier used by the local store.
    pub fn key(self) -> (r: &'static str)
        ensures
            r@ == self.spec_key(),
    {
        match self {
            SkinId::Soldier => "soldier",
            SkinId::Police => "police",
        }
    }

    /// The skin whose key is `key`, if any.
    pub fn from_key(key: &str) -> (r: Option<SkinId>)
        ensures
            match r {
                Some(s) => s.spec_key() == key@,
                None => forall|s: SkinId| s.spec_key() != key@,
            },
    {
        if str_eq(key, "soldier") {
            Some(SkinId::Soldier)
        } else if str_eq(key, "police") {
            Some(SkinId::Police)
        } else {
            None
        }
    }
}

/// Skin keys tell the skins apart.
pub proof fn lemma_skin_key_injective(a: SkinId, b: SkinId)
    ensures
        a.spec_key() == b.spec_key() ==> a == b,
{
    reveal_strlit("soldier");
    reveal_strlit("police");
    if a.spec_key() == b.spec_key() && a != b {
        assert(a.spec_key().len() != b.spec_key().len());
    }
}

/// A skin's display data.
#[derive(Clone, Debug)]
pub struct SkinDefinition {
    pub id: SkinId,
    pub name: &'static str,
    /// Scene path of the GLB model.
    pub model_path: &'static str,
    /// Which team can use this skin.
    pub side: PlayerSide,
}

/// Registry of all available skins.
pub struct SkinRegistry {
    pub skins: Vec<SkinDefinition>,
}

impl Default for SkinRegistry {
    fn default() -> (r: Self)
        ensures
            r.skins@.len() == 2,
            r.skins@[0].id == SkinId::Soldier,
            r.skins@[0].name@ == "Soldier"@,
            r.skins@[0].model_path@ == "generated/attacker.glb#Scene0"@,
            r.skins@[0].side == PlayerSide::Attacker,
            r.skins@[1].id == SkinId::Police,
            r.skins@[1].name@ == "Police Defender"@,
            r.skins@[1].model_path@ == "generated/defender.glb#Scene0"@,
            r.skins@[1].side == PlayerSide::Defender,
    {
        let mut skins: Vec<SkinDefinition> = Vec::new();
        skins.push(
            SkinDefinition {
                id: SkinId::Soldier,
                name: "Soldier",
                model_path: "generated/attacker.glb#Scene0",
                side: PlayerSide::Attacker,
            },
        );
        skins.push(
            SkinDefinition {
                id: SkinId::Police,
                name: "Police Defender",
                model_path: "generated/defender.glb#Scene0",
                side: PlayerSide::Defender,
            },
        );
        SkinRegistry { skins }
    }
}

/// A skin is offered to `side` when it belongs to that side or to either team.
pub open spec fn skin_offered(def: SkinDefinition, side: PlayerSide) -> bool {
    def.side == side || def.side == PlayerSide::Any
}

impl SkinRegistry {
    /// The first registered skin with the given id.
    pub fn get(&self, id: SkinId) -> (r: Option<&SkinDefinition>)
        ensures
            match r {
                Some(d) => exists|i: int|
                    0 <= i < self.skins@.len() && self.skins@[i] == *d && d.id == id && forall|
                        j: int,
                    | 0 <= j < i ==> self.skins@[j].id != id,
                None => forall|i: int| 0 <= i < self.skins@.len() ==> self.skins@[i].id != id,
            },
    {
        let mut i: usize = 0;
        while i < self.skins.len()
            invariant
                i <= self.skins@.len(),
                forall|j: int| 0 <= j < i ==> self.skins@[j].id != id,
            decreases self.skins@.len() - i,
        {
            if self.skins[i].id == id {
                return Some(&self.skins[i]);
            }
            i += 1;
        }
        None
    }

    /// All skins for a side, including those usable by either team, in registry order.
    pub fn get_for_side(&self, side: PlayerSide) -> (r: Vec<&SkinDefinition>)
        ensures
            r@.map_values(|d: &SkinDefinition| *d) == self.skins@.filter(
                |d: SkinDefinition| skin_offered(d, side),
            ),
    {
        let mut out: Vec<&SkinDefinition> = Vec::new();
        let mut i: usize = 0;
        while i < self.skins.len()
            invariant
                i <= self.skins@.len(),
                out@.map_values(|d: &SkinDefinition| *d) == self.skins@.take(i as int).filter(
                    |d: SkinDefinition| skin_offered(d, side),
                ),
            decreases self.skins@.len() - i,
        {
            let d = &self.skins[i];
            proof {
                reveal_with_fuel(Seq::<_>::filter, 1);
                assert(self.skins@.take(i + 1).drop_last() =~= self.skins@.take(i as int));
            }
            if d.side == side || d.side == PlayerSide::Any {
                out.push(d);
            }
            assert(out@.map_values(|d: &SkinDefinition| *d) =~= self.skins@.take(i + 1).filter(
                |d: SkinDefinition| skin_offered(d, side),
            ));
            i += 1;
        }
        assert(self.skins@.take(self.skins@.len() as int) =~= self.skins@);
        out
    }
}

} // verus!
