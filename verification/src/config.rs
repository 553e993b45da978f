//! The settings of a build that a summary reads.

use vstd::prelude::*;

verus! {

#[derive(Debug, Copy, Clone, PartialEq, Eq, Structural)]
pub enum Config {
    BrittleEffect,
    Boss,
    CoveredInAsh,
    CustomMods,
    EnemyBrittled,
    EnemeyHit,
    EnemySapped,
    EnemyScorched,
    EnemyShocked,
    Focused,
    FrenzyCharges,
    FrenzyChargesAmount,
    PowerCharges,
    PowerChargesAmount,
    WitherStacks,
    SapEffect,
    ScorchedEffect,
    ShockEffect,
}

impl Config {
    /// The name under which a build holds the setting.
    pub open spec fn name_text(self) -> Seq<char> {
        match self {
            Config::BrittleEffect => "conditionBrittleEffect"@,
            Config::Boss => "enemyIsBoss"@,
            Config::CoveredInAsh => "conditionEnemyCoveredInAsh"@,
            Config::CustomMods => "customMods"@,
            Config::EnemyBrittled => "conditionEnemyBrittle"@,
            Config::EnemeyHit => "enemyHit"@,
            Config::EnemySapped => "conditionEnemySapped"@,
            Config::EnemyScorched => "conditionEnemyScorched"@,
            Config::EnemyShocked => "conditionEnemyShocked"@,
            Config::Focused => "conditionFocused"@,
            Config::FrenzyCharges => "useFrenzyCharges"@,
            Config::FrenzyChargesAmount => "overrideFrenzyCharges"@,
            Config::PowerCharges => "usePowerCharges"@,
            Config::PowerChargesAmount => "overrideFrenzyCharges"@,
            Config::WitherStacks => "multiplierWitheredStackCount"@,
            Config::SapEffect => "conditionSapEffect"@,
            Config::ScorchedEffect => "conditionScorchedEffect"@,
            Config::ShockEffect => "conditionShockEffect"@,
        }
    }

    pub fn name(&self) -> (out: &'static str)
        ensures
            out@ == self.name_text(),
    {
        match self {
            Config::BrittleEffect => "conditionBrittleEffect",
            Config::Boss => "enemyIsBoss",
            Config::CoveredInAsh => "conditionEnemyCoveredInAsh",
            Config::CustomMods => "customMods",
            Config::EnemyBrittled => "conditionEnemyBrittle",
            Config::EnemeyHit => "enemyHit",
            Config::EnemySapped => "conditionEnemySapped",
            Config::EnemyScorched => "conditionEnemyScorched",
            Config::EnemyShocked => "conditionEnemyShocked",
            Config::Focused => "conditionFocused",
            Config::FrenzyCharges => "useFrenzyCharges",
            Config::FrenzyChargesAmount => "overrideFrenzyCharges",
            Config::PowerCharges => "usePowerCharges",
            Config::PowerChargesAmount => "overrideFrenzyCharges",
            Config::WitherStacks => "multiplierWitheredStackCount",
            Config::SapEffect => "conditionSapEffect",
            Config::ScorchedEffect => "conditionScorchedEffect",
            Config::ShockEffect => "conditionShockEffect",
        }
    }

    /// Whether `other` is the name of the setting.
    pub fn is_named(&self, other: &str) -> (out: bool)
        ensures
            out == (self.name_text() == other@),
    {
        crate::text::str_eq(self.name(), other)
    }
}

/// What a setting is read as where a build does not say.
pub fn default_true() -> (out: bool)
    ensures
        out,
{
    true
}

} // verus!
