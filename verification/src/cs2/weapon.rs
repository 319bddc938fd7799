//! Weapons, and the names the game gives them.
use vstd::prelude::*;

use crate::text::str_eq;

verus! {

/// A weapon the tool tells apart.
#[derive(Debug, Default, Clone, Copy, PartialEq, Eq, Structural, Hash)]
pub enum Weapon {
    #[default]
    Unknown,

    Knife,

    // Pistols
    Cz75A,
    Deagle,
    DualBerettas,
    FiveSeven,
    Glock,
    P2000,
    P250,
    Revolver,
    Tec9,
    Usp,

    // SMGs
    Bizon,
    Mac10,
    Mp5Sd,
    Mp7,
    Mp9,
    P90,
    Ump45,

    // LMGs
    M249,
    Negev,

    // Shotguns
    Mag7,
    Nova,
    Sawedoff,
    Xm1014,

    // Rifles
    Ak47,
    Aug,
    Famas,
    Galilar,
    M4A4,
    M4A1,
    Sg556,

    // Snipers
    Awp,
    G3SG1,
    Scar20,
    Ssg08,

    // Utility
    Taser,

    // Grenades
    Flashbang,
    HeGrenade,
    Smoke,
    Molotov,
    Decoy,
    Incendiary,

    // Bomb
    C4,
}

/// The weapon that the name `name` stands for: every knife model is `Knife`,
/// both silencer states of the USP-S and of the M4A1-S give the same weapon,
/// and any name outside the table is `Unknown`.
pub open spec fn spec_weapon_from_name(name: Seq<char>) -> Weapon {
    if name == "bayonet"@ {
        Weapon::Knife
    } else if name == "knife"@ {
        Weapon::Knife
    } else if name == "knife_bowie"@ {
        Weapon::Knife
    } else if name == "knife_butterfly"@ {
        Weapon::Knife
    } else if name == "knife_canis"@ {
        Weapon::Knife
    } else if name == "knife_cord"@ {
        Weapon::Knife
    } else if name == "knife_css"@ {
        Weapon::Knife
    } else if name == "knife_falchion"@ {
        Weapon::Knife
    } else if name == "knife_flip"@ {
        Weapon::Knife
    } else if name == "knife_gut"@ {
        Weapon::Knife
    } else if name == "knife_gypsy_jackknife"@ {
        Weapon::Knife
    } else if name == "knife_karambit"@ {
        Weapon::Knife
    } else if name == "knife_kukri"@ {
        Weapon::Knife
    } else if name == "knife_m9_bayonet"@ {
        Weapon::Knife
    } else if name == "knife_outdoor"@ {
        Weapon::Knife
    } else if name == "knife_push"@ {
        Weapon::Knife
    } else if name == "knife_skeleton"@ {
        Weapon::Knife
    } else if name == "knife_stiletto"@ {
        Weapon::Knife
    } else if name == "knife_survival_bowie"@ {
        Weapon::Knife
    } else if name == "knife_t"@ {
        Weapon::Knife
    } else if name == "knife_tactical"@ {
        Weapon::Knife
    } else if name == "knife_twinblade"@ {
        Weapon::Knife
    } else if name == "knife_ursus"@ {
        Weapon::Knife
    } else if name == "knife_widowmaker"@ {
        Weapon::Knife
    } else if name == "cz75a"@ {
        Weapon::Cz75A
    } else if name == "deagle"@ {
        Weapon::Deagle
    } else if name == "elite"@ {
        Weapon::DualBerettas
    } else if name == "fiveseven"@ {
        Weapon::FiveSeven
    } else if name == "glock"@ {
        Weapon::Glock
    } else if name == "hkp2000"@ {
        Weapon::P2000
    } else if name == "p250"@ {
        Weapon::P250
    } else if name == "revolver"@ {
        Weapon::Revolver
    } else if name == "tec9"@ {
        Weapon::Tec9
    } else if name == "usp_silencer"@ {
        Weapon::Usp
    } else if name == "usp_silencer_off"@ {
        Weapon::Usp
    } else if name == "bizon"@ {
        Weapon::Bizon
    } else if name == "mac10"@ {
        Weapon::Mac10
    } else if name == "mp5sd"@ {
        Weapon::Mp5Sd
    } else if name == "mp7"@ {
        Weapon::Mp7
    } else if name == "mp9"@ {
        Weapon::Mp9
    } else if name == "p90"@ {
        Weapon::P90
    } else if name == "ump45"@ {
        Weapon::Ump45
    } else if name == "m249"@ {
        Weapon::M249
    } else if name == "negev"@ {
        Weapon::Negev
    } else if name == "mag7"@ {
        Weapon::Mag7
    } else if name == "nova"@ {
        Weapon::Nova
    } else if name == "sawedoff"@ {
        Weapon::Sawedoff
    } else if name == "xm1014"@ {
        Weapon::Xm1014
    } else if name == "ak47"@ {
        Weapon::Ak47
    } else if name == "aug"@ {
        Weapon::Aug
    } else if name == "famas"@ {
        Weapon::Famas
    } else if name == "galilar"@ {
        Weapon::Galilar
    } else if name == "m4a1_silencer"@ {
        Weapon::M4A1
    } else if name == "m4a1_silencer_off"@ {
        Weapon::M4A1
    } else if name == "m4a1"@ {
        Weapon::M4A4
    } else if name == "sg556"@ {
        Weapon::Sg556
    } else if name == "awp"@ {
        Weapon::Awp
    } else if name == "g3sg1"@ {
        Weapon::G3SG1
    } else if name == "scar20"@ {
        Weapon::Scar20
    } else if name == "ssg08"@ {
        Weapon::Ssg08
    } else if name == "taser"@ {
        Weapon::Taser
    } else if name == "flashbang"@ {
        Weapon::Flashbang
    } else if name == "hegrenade"@ {
        Weapon::HeGrenade
    } else if name == "smokegrenade"@ {
        Weapon::Smoke
    } else if name == "molotov"@ {
        Weapon::Molotov
    } else if name == "decoy"@ {
        Weapon::Decoy
    } else if name == "incgrenade"@ {
        Weapon::Incendiary
    } else if name == "c4"@ {
        Weapon::C4
    } else {
        Weapon::Unknown
    }
}

impl Weapon {
    /// The weapon that the designer name `name` stands for.
    pub fn from_str(name: &str) -> (weapon: Weapon)
        ensures
            weapon == spec_weapon_from_name(name@),
    {
        if str_eq(name, "bayonet") {
            Weapon::Knife
        } else if str_eq(name, "knife") {
            Weapon::Knife
        } else if str_eq(name, "knife_bowie") {
            Weapon::Knife
        } else if str_eq(name, "knife_butterfly") {
            Weapon::Knife
        } else if str_eq(name, "knife_canis") {
            Weapon::Knife
        } else if str_eq(name, "knife_cord") {
            Weapon::Knife
        } else if str_eq(name, "knife_css") {
            Weapon::Knife
        } else if str_eq(name, "knife_falchion") {
            Weapon::Knife
        } else if str_eq(name, "knife_flip") {
            Weapon::Knife
        } else if str_eq(name, "knife_gut") {
            Weapon::Knife
        } else if str_eq(name, "knife_gypsy_jackknife") {
            Weapon::Knife
        } else if str_eq(name, "knife_karambit") {
            Weapon::Knife
        } else if str_eq(name, "knife_kukri") {
            Weapon::Knife
        } else if str_eq(name, "knife_m9_bayonet") {
            Weapon::Knife
        } else if str_eq(name, "knife_outdoor") {
            Weapon::Knife
        } else if str_eq(name, "knife_push") {
            Weapon::Knife
        } else if str_eq(name, "knife_skeleton") {
            Weapon::Knife
        } else if str_eq(name, "knife_stiletto") {
            Weapon::Knife
        } else if str_eq(name, "knife_survival_bowie") {
            Weapon::Knife
        } else if str_eq(name, "knife_t") {
            Weapon::Knife
        } else if str_eq(name, "knife_tactical") {
            Weapon::Knife
        } else if str_eq(name, "knife_twinblade") {
            Weapon::Knife
        } else if str_eq(name, "knife_ursus") {
            Weapon::Knife
        } else if str_eq(name, "knife_widowmaker") {
            Weapon::Knife
        } else if str_eq(name, "cz75a") {
            Weapon::Cz75A
        } else if str_eq(name, "deagle") {
            Weapon::Deagle
        } else if str_eq(name, "elite") {
            Weapon::DualBerettas
        } else if str_eq(name, "fiveseven") {
            Weapon::FiveSeven
        } else if str_eq(name, "glock") {
            Weapon::Glock
        } else if str_eq(name, "hkp2000") {
            Weapon::P2000
        } else if str_eq(name, "p250") {
            Weapon::P250
        } else if str_eq(name, "revolver") {
            Weapon::Revolver
        } else if str_eq(name, "tec9") {
            Weapon::Tec9
        } else if str_eq(name, "usp_silencer") {
            Weapon::Usp
        } else if str_eq(name, "usp_silencer_off") {
            Weapon::Usp
        } else if str_eq(name, "bizon") {
            Weapon::Bizon
        } else if str_eq(name, "mac10") {
            Weapon::Mac10
        } else if str_eq(name, "mp5sd") {
            Weapon::Mp5Sd
        } else if str_eq(name, "mp7") {
            Weapon::Mp7
        } else if str_eq(name, "mp9") {
            Weapon::Mp9
        } else if str_eq(name, "p90") {
            Weapon::P90
        } else if str_eq(name, "ump45") {
            Weapon::Ump45
        } else if str_eq(name, "m249") {
            Weapon::M249
        } else if str_eq(name, "negev") {
            Weapon::Negev
        } else if str_eq(name, "mag7") {
            Weapon::Mag7
        } else if str_eq(name, "nova") {
            Weapon::Nova
        } else if str_eq(name, "sawedoff") {
            Weapon::Sawedoff
        } else if str_eq(name, "xm1014") {
            Weapon::Xm1014
        } else if str_eq(name, "ak47") {
            Weapon::Ak47
        } else if str_eq(name, "aug") {
            Weapon::Aug
        } else if str_eq(name, "famas") {
            Weapon::Famas
        } else if str_eq(name, "galilar") {
            Weapon::Galilar
        } else if str_eq(name, "m4a1_silencer") {
            Weapon::M4A1
        } else if str_eq(name, "m4a1_silencer_off") {
            Weapon::M4A1
        } else if str_eq(name, "m4a1") {
            Weapon::M4A4
        } else if str_eq(name, "sg556") {
            Weapon::Sg556
        } else if str_eq(name, "awp") {
            Weapon::Awp
        } else if str_eq(name, "g3sg1") {
            Weapon::G3SG1
        } else if str_eq(name, "scar20") {
            Weapon::Scar20
        } else if str_eq(name, "ssg08") {
            Weapon::Ssg08
        } else if str_eq(name, "taser") {
            Weapon::Taser
        } else if str_eq(name, "flashbang") {
            Weapon::Flashbang
        } else if str_eq(name, "hegrenade") {
            Weapon::HeGrenade
        } else if str_eq(name, "smokegrenade") {
            Weapon::Smoke
        } else if str_eq(name, "molotov") {
            Weapon::Molotov
        } else if str_eq(name, "decoy") {
            Weapon::Decoy
        } else if str_eq(name, "incgrenade") {
            Weapon::Incendiary
        } else if str_eq(name, "c4") {
            Weapon::C4
        } else {
            Weapon::Unknown
        }
    }
}


/// The designer name the game gives each weapon; for a knife the plain
/// `knife`, for the USP-S and the M4A1-S their name with the silencer on, and
/// nothing for `Unknown`.
pub open spec fn designer_name(weapon: Weapon) -> Seq<char> {
    match weapon {
        Weapon::Unknown => Seq::empty(),
        Weapon::Knife => "knife"@,
        Weapon::Cz75A => "cz75a"@,
        Weapon::Deagle => "deagle"@,
        Weapon::DualBerettas => "elite"@,
        Weapon::FiveSeven => "fiveseven"@,
        Weapon::Glock => "glock"@,
        Weapon::P2000 => "hkp2000"@,
        Weapon::P250 => "p250"@,
        Weapon::Revolver => "revolver"@,
        Weapon::Tec9 => "tec9"@,
        Weapon::Usp => "usp_silencer"@,
        Weapon::Bizon => "bizon"@,
        Weapon::Mac10 => "mac10"@,
        Weapon::Mp5Sd => "mp5sd"@,
        Weapon::Mp7 => "mp7"@,
        Weapon::Mp9 => "mp9"@,
        Weapon::P90 => "p90"@,
        Weapon::Ump45 => "ump45"@,
        Weapon::M249 => "m249"@,
        Weapon::Negev => "negev"@,
        Weapon::Mag7 => "mag7"@,
        Weapon::Nova => "nova"@,
        Weapon::Sawedoff => "sawedoff"@,
        Weapon::Xm1014 => "xm1014"@,
        Weapon::Ak47 => "ak47"@,
        Weapon::Aug => "aug"@,
        Weapon::Famas => "famas"@,
        Weapon::Galilar => "galilar"@,
        Weapon::M4A1 => "m4a1_silencer"@,
        Weapon::M4A4 => "m4a1"@,
        Weapon::Sg556 => "sg556"@,
        Weapon::Awp => "awp"@,
        Weapon::G3SG1 => "g3sg1"@,
        Weapon::Scar20 => "scar20"@,
        Weapon::Ssg08 => "ssg08"@,
        Weapon::Taser => "taser"@,
        Weapon::Flashbang => "flashbang"@,
        Weapon::HeGrenade => "hegrenade"@,
        Weapon::Smoke => "smokegrenade"@,
        Weapon::Molotov => "molotov"@,
        Weapon::Decoy => "decoy"@,
        Weapon::Incendiary => "incgrenade"@,
        Weapon::C4 => "c4"@,
    }
}

/// Every weapon is what its own designer name stands for, so no two weapons
/// share a name; the silencer-off names stand for the same weapons, and the
/// empty name for none.
pub proof fn lemma_designer_names(weapon: Weapon)
    ensures
        weapon != Weapon::Unknown ==> spec_weapon_from_name(designer_name(weapon)) == weapon,
        spec_weapon_from_name(Seq::empty()) == Weapon::Unknown,
        spec_weapon_from_name("usp_silencer_off"@) == Weapon::Usp,
        spec_weapon_from_name("m4a1_silencer_off"@) == Weapon::M4A1,
{
    reveal_strlit("bayonet");
    reveal_strlit("knife");
    reveal_strlit("knife_bowie");
    reveal_strlit("knife_butterfly");
    reveal_strlit("knife_canis");
    reveal_strlit("knife_cord");
    reveal_strlit("knife_css");
    reveal_strlit("knife_falchion");
    reveal_strlit("knife_flip");
    reveal_strlit("knife_gut");
    reveal_strlit("knife_gypsy_jackknife");
    reveal_strlit("knife_karambit");
    reveal_strlit("knife_kukri");
    reveal_strlit("knife_m9_bayonet");
    reveal_strlit("knife_outdoor");
    reveal_strlit("knife_push");
    reveal_strlit("knife_skeleton");
    reveal_strlit("knife_stiletto");
    reveal_strlit("knife_survival_bowie");
    reveal_strlit("knife_t");
    reveal_strlit("knife_tactical");
    reveal_strlit("knife_twinblade");
    reveal_strlit("knife_ursus");
    reveal_strlit("knife_widowmaker");
    reveal_strlit("cz75a");
    reveal_strlit("deagle");
    reveal_strlit("elite");
    reveal_strlit("fiveseven");
    reveal_strlit("glock");
    reveal_strlit("hkp2000");
    reveal_strlit("p250");
    reveal_strlit("revolver");
    reveal_strlit("tec9");
    reveal_strlit("usp_silencer");
    reveal_strlit("usp_silencer_off");
    reveal_strlit("bizon");
    reveal_strlit("mac10");
    reveal_strlit("mp5sd");
    reveal_strlit("mp7");
    reveal_strlit("mp9");
    reveal_strlit("p90");
    reveal_strlit("ump45");
    reveal_strlit("m249");
    reveal_strlit("negev");
    reveal_strlit("mag7");
    reveal_strlit("nova");
    reveal_strlit("sawedoff");
    reveal_strlit("xm1014");
    reveal_strlit("ak47");
    reveal_strlit("aug");
    reveal_strlit("famas");
    reveal_strlit("galilar");
    reveal_strlit("m4a1_silencer");
    reveal_strlit("m4a1_silencer_off");
    reveal_strlit("m4a1");
    reveal_strlit("sg556");
    reveal_strlit("awp");
    reveal_strlit("g3sg1");
    reveal_strlit("scar20");
    reveal_strlit("ssg08");
    reveal_strlit("taser");
    reveal_strlit("flashbang");
    reveal_strlit("hegrenade");
    reveal_strlit("smokegrenade");
    reveal_strlit("molotov");
    reveal_strlit("decoy");
    reveal_strlit("incgrenade");
    reveal_strlit("c4");
    assert("bayonet"@.len() == 7);
    assert("knife"@.len() == 5);
    assert("knife_bowie"@.len() == 11);
    assert("knife_butterfly"@.len() == 15);
    assert("knife_canis"@.len() == 11);
    assert("knife_cord"@.len() == 10);
    assert("knife_css"@.len() == 9);
    assert("knife_falchion"@.len() == 14);
    assert("knife_flip"@.len() == 10);
    assert("knife_gut"@.len() == 9);
    assert("knife_gypsy_jackknife"@.len() == 21);
    assert("knife_karambit"@.len() == 14);
    assert("knife_kukri"@.len() == 11);
    assert("knife_m9_bayonet"@.len() == 16);
    assert("knife_outdoor"@.len() == 13);
    assert("knife_push"@.len() == 10);
    assert("knife_skeleton"@.len() == 14);
    assert("knife_stiletto"@.len() == 14);
    assert("knife_survival_bowie"@.len() == 20);
    assert("knife_t"@.len() == 7);
    assert("knife_tactical"@.len() == 14);
    assert("knife_twinblade"@.len() == 15);
    assert("knife_ursus"@.len() == 11);
    assert("knife_widowmaker"@.len() == 16);
    assert("cz75a"@.len() == 5);
    assert("deagle"@.len() == 6);
    assert("elite"@.len() == 5);
    assert("fiveseven"@.len() == 9);
    assert("glock"@.len() == 5);
    assert("hkp2000"@.len() == 7);
    assert("p250"@.len() == 4);
    assert("revolver"@.len() == 8);
    assert("tec9"@.len() == 4);
    assert("usp_silencer"@.len() == 12);
    assert("usp_silencer_off"@.len() == 16);
    assert("bizon"@.len() == 5);
    assert("mac10"@.len() == 5);
    assert("mp5sd"@.len() == 5);
    assert("mp7"@.len() == 3);
    assert("mp9"@.len() == 3);
    assert("p90"@.len() == 3);
    assert("ump45"@.len() == 5);
    assert("m249"@.len() == 4);
    assert("negev"@.len() == 5);
    assert("mag7"@.len() == 4);
    assert("nova"@.len() == 4);
    assert("sawedoff"@.len() == 8);
    assert("xm1014"@.len() == 6);
    assert("ak47"@.len() == 4);
    assert("aug"@.len() == 3);
    assert("famas"@.len() == 5);
    assert("galilar"@.len() == 7);
    assert("m4a1_silencer"@.len() == 13);
    assert("m4a1_silencer_off"@.len() == 17);
    assert("m4a1"@.len() == 4);
    assert("sg556"@.len() == 5);
    assert("awp"@.len() == 3);
    assert("g3sg1"@.len() == 5);
    assert("scar20"@.len() == 6);
    assert("ssg08"@.len() == 5);
    assert("taser"@.len() == 5);
    assert("flashbang"@.len() == 9);
    assert("hegrenade"@.len() == 9);
    assert("smokegrenade"@.len() == 12);
    assert("molotov"@.len() == 7);
    assert("decoy"@.len() == 5);
    assert("incgrenade"@.len() == 10);
    assert("c4"@.len() == 2);
    assert("bayonet"@[0] == 'b' && "knife_t"@[0] == 'k');
    assert("bayonet"@[0] == 'b' && "hkp2000"@[0] == 'h');
    assert("bayonet"@[0] == 'b' && "galilar"@[0] == 'g');
    assert("bayonet"@[0] == 'b' && "molotov"@[0] == 'm');
    assert("knife"@[0] == 'k' && "mac10"@[0] == 'm');
    assert("knife"@[0] == 'k' && "mp5sd"@[0] == 'm');
    assert("knife"@[0] == 'k' && "ump45"@[0] == 'u');
    assert("knife"@[0] == 'k' && "negev"@[0] == 'n');
    assert("knife"@[0] == 'k' && "sg556"@[0] == 's');
    assert("knife"@[0] == 'k' && "ssg08"@[0] == 's');
    assert("knife"@[0] == 'k' && "taser"@[0] == 't');
    assert("knife_bowie"@[6] == 'b' && "knife_canis"@[6] == 'c');
    assert("knife_bowie"@[6] == 'b' && "knife_kukri"@[6] == 'k');
    assert("knife_bowie"@[6] == 'b' && "knife_ursus"@[6] == 'u');
    assert("knife_butterfly"@[6] == 'b' && "knife_twinblade"@[6] == 't');
    assert("knife_canis"@[6] == 'c' && "knife_kukri"@[6] == 'k');
    assert("knife_canis"@[6] == 'c' && "knife_ursus"@[6] == 'u');
    assert("knife_cord"@[6] == 'c' && "knife_flip"@[6] == 'f');
    assert("knife_cord"@[6] == 'c' && "knife_push"@[6] == 'p');
    assert("knife_css"@[6] == 'c' && "knife_gut"@[6] == 'g');
    assert("knife_falchion"@[6] == 'f' && "knife_karambit"@[6] == 'k');
    assert("knife_falchion"@[6] == 'f' && "knife_skeleton"@[6] == 's');
    assert("knife_falchion"@[6] == 'f' && "knife_stiletto"@[6] == 's');
    assert("knife_falchion"@[6] == 'f' && "knife_tactical"@[6] == 't');
    assert("knife_flip"@[6] == 'f' && "knife_push"@[6] == 'p');
    assert("knife_karambit"@[6] == 'k' && "knife_skeleton"@[6] == 's');
    assert("knife_karambit"@[6] == 'k' && "knife_stiletto"@[6] == 's');
    assert("knife_karambit"@[6] == 'k' && "knife_tactical"@[6] == 't');
    assert("knife_kukri"@[6] == 'k' && "knife_ursus"@[6] == 'u');
    assert("knife_m9_bayonet"@[6] == 'm' && "knife_widowmaker"@[6] == 'w');
    assert("knife_m9_bayonet"@[0] == 'k' && "usp_silencer_off"@[0] == 'u');
    assert("knife_outdoor"@[0] == 'k' && "m4a1_silencer"@[0] == 'm');
    assert("knife_skeleton"@[7] == 'k' && "knife_stiletto"@[7] == 't');
    assert("knife_skeleton"@[6] == 's' && "knife_tactical"@[6] == 't');
    assert("knife_stiletto"@[6] == 's' && "knife_tactical"@[6] == 't');
    assert("knife_t"@[0] == 'k' && "molotov"@[0] == 'm');
    assert("knife_widowmaker"@[0] == 'k' && "usp_silencer_off"@[0] == 'u');
    assert("cz75a"@[0] == 'c' && "knife"@[0] == 'k');
    assert("cz75a"@[0] == 'c' && "elite"@[0] == 'e');
    assert("cz75a"@[0] == 'c' && "glock"@[0] == 'g');
    assert("cz75a"@[0] == 'c' && "mac10"@[0] == 'm');
    assert("cz75a"@[0] == 'c' && "mp5sd"@[0] == 'm');
    assert("cz75a"@[0] == 'c' && "ump45"@[0] == 'u');
    assert("cz75a"@[0] == 'c' && "negev"@[0] == 'n');
    assert("cz75a"@[0] == 'c' && "famas"@[0] == 'f');
    assert("cz75a"@[0] == 'c' && "sg556"@[0] == 's');
    assert("cz75a"@[0] == 'c' && "g3sg1"@[0] == 'g');
    assert("cz75a"@[0] == 'c' && "ssg08"@[0] == 's');
    assert("cz75a"@[0] == 'c' && "taser"@[0] == 't');
    assert("cz75a"@[0] == 'c' && "decoy"@[0] == 'd');
    assert("deagle"@[0] == 'd' && "xm1014"@[0] == 'x');
    assert("deagle"@[0] == 'd' && "scar20"@[0] == 's');
    assert("elite"@[0] == 'e' && "knife"@[0] == 'k');
    assert("elite"@[0] == 'e' && "glock"@[0] == 'g');
    assert("elite"@[0] == 'e' && "mac10"@[0] == 'm');
    assert("elite"@[0] == 'e' && "mp5sd"@[0] == 'm');
    assert("elite"@[0] == 'e' && "ump45"@[0] == 'u');
    assert("elite"@[0] == 'e' && "negev"@[0] == 'n');
    assert("elite"@[0] == 'e' && "famas"@[0] == 'f');
    assert("elite"@[0] == 'e' && "sg556"@[0] == 's');
    assert("elite"@[0] == 'e' && "g3sg1"@[0] == 'g');
    assert("elite"@[0] == 'e' && "ssg08"@[0] == 's');
    assert("elite"@[0] == 'e' && "taser"@[0] == 't');
    assert("fiveseven"@[0] == 'f' && "knife_css"@[0] == 'k');
    assert("fiveseven"@[0] == 'f' && "knife_gut"@[0] == 'k');
    assert("fiveseven"@[1] == 'i' && "flashbang"@[1] == 'l');
    assert("fiveseven"@[0] == 'f' && "hegrenade"@[0] == 'h');
    assert("glock"@[0] == 'g' && "knife"@[0] == 'k');
    assert("glock"@[0] == 'g' && "mac10"@[0] == 'm');
    assert("glock"@[0] == 'g' && "mp5sd"@[0] == 'm');
    assert("glock"@[0] == 'g' && "ump45"@[0] == 'u');
    assert("glock"@[0] == 'g' && "negev"@[0] == 'n');
    assert("glock"@[0] == 'g' && "sg556"@[0] == 's');
    assert("glock"@[0] == 'g' && "ssg08"@[0] == 's');
    assert("glock"@[0] == 'g' && "taser"@[0] == 't');
    assert("hkp2000"@[0] == 'h' && "knife_t"@[0] == 'k');
    assert("hkp2000"@[0] == 'h' && "molotov"@[0] == 'm');
    assert("p250"@[0] == 'p' && "tec9"@[0] == 't');
    assert("revolver"@[0] == 'r' && "sawedoff"@[0] == 's');
    assert("bizon"@[0] == 'b' && "knife"@[0] == 'k');
    assert("bizon"@[0] == 'b' && "cz75a"@[0] == 'c');
    assert("bizon"@[0] == 'b' && "elite"@[0] == 'e');
    assert("bizon"@[0] == 'b' && "glock"@[0] == 'g');
    assert("bizon"@[0] == 'b' && "mac10"@[0] == 'm');
    assert("bizon"@[0] == 'b' && "mp5sd"@[0] == 'm');
    assert("bizon"@[0] == 'b' && "ump45"@[0] == 'u');
    assert("bizon"@[0] == 'b' && "negev"@[0] == 'n');
    assert("bizon"@[0] == 'b' && "famas"@[0] == 'f');
    assert("bizon"@[0] == 'b' && "sg556"@[0] == 's');
    assert("bizon"@[0] == 'b' && "g3sg1"@[0] == 'g');
    assert("bizon"@[0] == 'b' && "ssg08"@[0] == 's');
    assert("bizon"@[0] == 'b' && "taser"@[0] == 't');
    assert("bizon"@[0] == 'b' && "decoy"@[0] == 'd');
    assert("mac10"@[1] == 'a' && "mp5sd"@[1] == 'p');
    assert("mac10"@[0] == 'm' && "ump45"@[0] == 'u');
    assert("mac10"@[0] == 'm' && "negev"@[0] == 'n');
    assert("mac10"@[0] == 'm' && "sg556"@[0] == 's');
    assert("mac10"@[0] == 'm' && "ssg08"@[0] == 's');
    assert("mac10"@[0] == 'm' && "taser"@[0] == 't');
    assert("mp5sd"@[0] == 'm' && "ump45"@[0] == 'u');
    assert("mp5sd"@[0] == 'm' && "negev"@[0] == 'n');
    assert("mp5sd"@[0] == 'm' && "sg556"@[0] == 's');
    assert("mp5sd"@[0] == 'm' && "ssg08"@[0] == 's');
    assert("mp5sd"@[0] == 'm' && "taser"@[0] == 't');
    assert("mp7"@[2] == '7' && "mp9"@[2] == '9');
    assert("mp7"@[0] == 'm' && "p90"@[0] == 'p');
    assert("mp9"@[0] == 'm' && "p90"@[0] == 'p');
    assert("m249"@[0] == 'm' && "p250"@[0] == 'p');
    assert("m249"@[0] == 'm' && "tec9"@[0] == 't');
    assert("m249"@[1] == '2' && "mag7"@[1] == 'a');
    assert("m249"@[0] == 'm' && "nova"@[0] == 'n');
    assert("m249"@[1] == '2' && "m4a1"@[1] == '4');
    assert("negev"@[0] == 'n' && "ump45"@[0] == 'u');
    assert("negev"@[0] == 'n' && "sg556"@[0] == 's');
    assert("negev"@[0] == 'n' && "ssg08"@[0] == 's');
    assert("negev"@[0] == 'n' && "taser"@[0] == 't');
    assert("mag7"@[0] == 'm' && "p250"@[0] == 'p');
    assert("mag7"@[0] == 'm' && "tec9"@[0] == 't');
    assert("mag7"@[0] == 'm' && "nova"@[0] == 'n');
    assert("nova"@[0] == 'n' && "p250"@[0] == 'p');
    assert("nova"@[0] == 'n' && "tec9"@[0] == 't');
    assert("ak47"@[0] == 'a' && "p250"@[0] == 'p');
    assert("ak47"@[0] == 'a' && "tec9"@[0] == 't');
    assert("ak47"@[0] == 'a' && "m249"@[0] == 'm');
    assert("ak47"@[0] == 'a' && "mag7"@[0] == 'm');
    assert("ak47"@[0] == 'a' && "nova"@[0] == 'n');
    assert("ak47"@[0] == 'a' && "m4a1"@[0] == 'm');
    assert("aug"@[0] == 'a' && "mp7"@[0] == 'm');
    assert("aug"@[0] == 'a' && "mp9"@[0] == 'm');
    assert("aug"@[0] == 'a' && "p90"@[0] == 'p');
    assert("aug"@[1] == 'u' && "awp"@[1] == 'w');
    assert("famas"@[0] == 'f' && "knife"@[0] == 'k');
    assert("famas"@[0] == 'f' && "glock"@[0] == 'g');
    assert("famas"@[0] == 'f' && "mac10"@[0] == 'm');
    assert("famas"@[0] == 'f' && "mp5sd"@[0] == 'm');
    assert("famas"@[0] == 'f' && "ump45"@[0] == 'u');
    assert("famas"@[0] == 'f' && "negev"@[0] == 'n');
    assert("famas"@[0] == 'f' && "sg556"@[0] == 's');
    assert("famas"@[0] == 'f' && "g3sg1"@[0] == 'g');
    assert("famas"@[0] == 'f' && "ssg08"@[0] == 's');
    assert("famas"@[0] == 'f' && "taser"@[0] == 't');
    assert("galilar"@[0] == 'g' && "knife_t"@[0] == 'k');
    assert("galilar"@[0] == 'g' && "hkp2000"@[0] == 'h');
    assert("galilar"@[0] == 'g' && "molotov"@[0] == 'm');
    assert("m4a1"@[0] == 'm' && "p250"@[0] == 'p');
    assert("m4a1"@[0] == 'm' && "tec9"@[0] == 't');
    assert("m4a1"@[1] == '4' && "mag7"@[1] == 'a');
    assert("m4a1"@[0] == 'm' && "nova"@[0] == 'n');
    assert("sg556"@[0] == 's' && "ump45"@[0] == 'u');
    assert("sg556"@[1] == 'g' && "ssg08"@[1] == 's');
    assert("sg556"@[0] == 's' && "taser"@[0] == 't');
    assert("awp"@[0] == 'a' && "mp7"@[0] == 'm');
    assert("awp"@[0] == 'a' && "mp9"@[0] == 'm');
    assert("awp"@[0] == 'a' && "p90"@[0] == 'p');
    assert("g3sg1"@[0] == 'g' && "knife"@[0] == 'k');
    assert("g3sg1"@[1] == '3' && "glock"@[1] == 'l');
    assert("g3sg1"@[0] == 'g' && "mac10"@[0] == 'm');
    assert("g3sg1"@[0] == 'g' && "mp5sd"@[0] == 'm');
    assert("g3sg1"@[0] == 'g' && "ump45"@[0] == 'u');
    assert("g3sg1"@[0] == 'g' && "negev"@[0] == 'n');
    assert("g3sg1"@[0] == 'g' && "sg556"@[0] == 's');
    assert("g3sg1"@[0] == 'g' && "ssg08"@[0] == 's');
    assert("g3sg1"@[0] == 'g' && "taser"@[0] == 't');
    assert("scar20"@[0] == 's' && "xm1014"@[0] == 'x');
    assert("ssg08"@[0] == 's' && "ump45"@[0] == 'u');
    assert("ssg08"@[0] == 's' && "taser"@[0] == 't');
    assert("taser"@[0] == 't' && "ump45"@[0] == 'u');
    assert("flashbang"@[0] == 'f' && "knife_css"@[0] == 'k');
    assert("flashbang"@[0] == 'f' && "knife_gut"@[0] == 'k');
    assert("flashbang"@[0] == 'f' && "hegrenade"@[0] == 'h');
    assert("hegrenade"@[0] == 'h' && "knife_css"@[0] == 'k');
    assert("hegrenade"@[0] == 'h' && "knife_gut"@[0] == 'k');
    assert("smokegrenade"@[0] == 's' && "usp_silencer"@[0] == 'u');
    assert("decoy"@[0] == 'd' && "knife"@[0] == 'k');
    assert("decoy"@[0] == 'd' && "elite"@[0] == 'e');
    assert("decoy"@[0] == 'd' && "glock"@[0] == 'g');
    assert("decoy"@[0] == 'd' && "mac10"@[0] == 'm');
    assert("decoy"@[0] == 'd' && "mp5sd"@[0] == 'm');
    assert("decoy"@[0] == 'd' && "ump45"@[0] == 'u');
    assert("decoy"@[0] == 'd' && "negev"@[0] == 'n');
    assert("decoy"@[0] == 'd' && "famas"@[0] == 'f');
    assert("decoy"@[0] == 'd' && "sg556"@[0] == 's');
    assert("decoy"@[0] == 'd' && "g3sg1"@[0] == 'g');
    assert("decoy"@[0] == 'd' && "ssg08"@[0] == 's');
    assert("decoy"@[0] == 'd' && "taser"@[0] == 't');
    assert("incgrenade"@[0] == 'i' && "knife_cord"@[0] == 'k');
    assert("incgrenade"@[0] == 'i' && "knife_flip"@[0] == 'k');
    assert("incgrenade"@[0] == 'i' && "knife_push"@[0] == 'k');
    assert(spec_weapon_from_name(Seq::empty()) == Weapon::Unknown);
    assert(spec_weapon_from_name("bayonet"@) == Weapon::Knife);
    assert(spec_weapon_from_name("knife"@) == Weapon::Knife);
    assert(spec_weapon_from_name("knife_bowie"@) == Weapon::Knife);
    assert(spec_weapon_from_name("knife_butterfly"@) == Weapon::Knife);
    assert(spec_weapon_from_name("knife_canis"@) == Weapon::Knife);
    assert(spec_weapon_from_name("knife_cord"@) == Weapon::Knife);
    assert(spec_weapon_from_name("knife_css"@) == Weapon::Knife);
    assert(spec_weapon_from_name("knife_falchion"@) == Weapon::Knife);
    assert(spec_weapon_from_name("knife_flip"@) == Weapon::Knife);
    assert(spec_weapon_from_name("knife_gut"@) == Weapon::Knife);
    assert(spec_weapon_from_name("knife_gypsy_jackknife"@) == Weapon::Knife);
    assert(spec_weapon_from_name("knife_karambit"@) == Weapon::Knife);
    assert(spec_weapon_from_name("knife_kukri"@) == Weapon::Knife);
    assert(spec_weapon_from_name("knife_m9_bayonet"@) == Weapon::Knife);
    assert(spec_weapon_from_name("knife_outdoor"@) == Weapon::Knife);
    assert(spec_weapon_from_name("knife_push"@) == Weapon::Knife);
    assert(spec_weapon_from_name("knife_skeleton"@) == Weapon::Knife);
    assert(spec_weapon_from_name("knife_stiletto"@) == Weapon::Knife);
    assert(spec_weapon_from_name("knife_survival_bowie"@) == Weapon::Knife);
    assert(spec_weapon_from_name("knife_t"@) == Weapon::Knife);
    assert(spec_weapon_from_name("knife_tactical"@) == Weapon::Knife);
    assert(spec_weapon_from_name("knife_twinblade"@) == Weapon::Knife);
    assert(spec_weapon_from_name("knife_ursus"@) == Weapon::Knife);
    assert(spec_weapon_from_name("knife_widowmaker"@) == Weapon::Knife);
    assert(spec_weapon_from_name("cz75a"@) == Weapon::Cz75A);
    assert(spec_weapon_from_name("deagle"@) == Weapon::Deagle);
    assert(spec_weapon_from_name("elite"@) == Weapon::DualBerettas);
    assert(spec_weapon_from_name("fiveseven"@) == Weapon::FiveSeven);
    assert(spec_weapon_from_name("glock"@) == Weapon::Glock);
    assert(spec_weapon_from_name("hkp2000"@) == Weapon::P2000);
    assert(spec_weapon_from_name("p250"@) == Weapon::P250);
    assert(spec_weapon_from_name("revolver"@) == Weapon::Revolver);
    assert(spec_weapon_from_name("tec9"@) == Weapon::Tec9);
    assert(spec_weapon_from_name("usp_silencer"@) == Weapon::Usp);
    assert(spec_weapon_from_name("usp_silencer_off"@) == Weapon::Usp);
    assert(spec_weapon_from_name("bizon"@) == Weapon::Bizon);
    assert(spec_weapon_from_name("mac10"@) == Weapon::Mac10);
    assert(spec_weapon_from_name("mp5sd"@) == Weapon::Mp5Sd);
    assert(spec_weapon_from_name("mp7"@) == Weapon::Mp7);
    assert(spec_weapon_from_name("mp9"@) == Weapon::Mp9);
    assert(spec_weapon_from_name("p90"@) == Weapon::P90);
    assert(spec_weapon_from_name("ump45"@) == Weapon::Ump45);
    assert(spec_weapon_from_name("m249"@) == Weapon::M249);
    assert(spec_weapon_from_name("negev"@) == Weapon::Negev);
    assert(spec_weapon_from_name("mag7"@) == Weapon::Mag7);
    assert(spec_weapon_from_name("nova"@) == Weapon::Nova);
    assert(spec_weapon_from_name("sawedoff"@) == Weapon::Sawedoff);
    assert(spec_weapon_from_name("xm1014"@) == Weapon::Xm1014);
    assert(spec_weapon_from_name("ak47"@) == Weapon::Ak47);
    assert(spec_weapon_from_name("aug"@) == Weapon::Aug);
    assert(spec_weapon_from_name("famas"@) == Weapon::Famas);
    assert(spec_weapon_from_name("galilar"@) == Weapon::Galilar);
    assert(spec_weapon_from_name("m4a1_silencer"@) == Weapon::M4A1);
    assert(spec_weapon_from_name("m4a1_silencer_off"@) == Weapon::M4A1);
    assert(spec_weapon_from_name("m4a1"@) == Weapon::M4A4);
    assert(spec_weapon_from_name("sg556"@) == Weapon::Sg556);
    assert(spec_weapon_from_name("awp"@) == Weapon::Awp);
    assert(spec_weapon_from_name("g3sg1"@) == Weapon::G3SG1);
    assert(spec_weapon_from_name("scar20"@) == Weapon::Scar20);
    assert(spec_weapon_from_name("ssg08"@) == Weapon::Ssg08);
    assert(spec_weapon_from_name("taser"@) == Weapon::Taser);
    assert(spec_weapon_from_name("flashbang"@) == Weapon::Flashbang);
    assert(spec_weapon_from_name("hegrenade"@) == Weapon::HeGrenade);
    assert(spec_weapon_from_name("smokegrenade"@) == Weapon::Smoke);
    assert(spec_weapon_from_name("molotov"@) == Weapon::Molotov);
    assert(spec_weapon_from_name("decoy"@) == Weapon::Decoy);
    assert(spec_weapon_from_name("incgrenade"@) == Weapon::Incendiary);
    assert(spec_weapon_from_name("c4"@) == Weapon::C4);
}

} // verus!
