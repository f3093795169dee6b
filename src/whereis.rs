use crate::commands::{CHANGELOG_LINK, FAQ_LINK};
use crate::reply::{Payload, Reply};
use crate::text::{
    all_white_space, lemma_trim_white_space, lemma_trimmed_surrounded, lower_of, str_eq,
    to_lowercase, trim, trimmed,
};
use vstd::prelude::*;

verus! {

/// The markdown answer to a `whereis` argument that names no known item.
pub const NOT_FOUND: &'static str = "`Item not found.`";

pub const DOC_NOTE: &'static str =
    "`Creating games at Moon Studios!` https://www.orithegame.com/";

pub const BOSSES_NOTE: &'static str =
    "`Waiting to challenge Samus in Metroid: Confrontation!` https://metroid2remake.blogspot.com/p/metroid-confrontation.html";

pub const DRUID_NOTE: &'static str =
    "`Spaceboosting across SR388 on YouTube and Twitch!`";

pub const SABRE_NOTE: &'static str =
    "`Exploring the history of Dinosaur Planet!`";

pub const SYPHONZOA_NOTE: &'static str =
    "`Feasting on the endless buffet of Hornoads in AM2R: The Horde!` https://github.com/Hornoads/AM2R-The-Horde-Multitroid/releases";

pub const AM2R_NOTE: &'static str =
    "`Once on the internet, always on the internet. Let Google be your guide.`";

pub const BOMBS_GIF: &'static str =
    "https://cdn.discordapp.com/attachments/509717926807601182/1076652269543620618/whereis_bombs.gif";

pub const SPIDER_BALL_GIF: &'static str =
    "https://cdn.discordapp.com/attachments/509717926807601182/1076652295967748217/whereis_spiderball.gif";

pub const SPRING_BALL_GIF: &'static str =
    "https://cdn.discordapp.com/attachments/509717926807601182/1076652296357822577/whereis_springball.gif";

pub const SCREW_ATTACK_GIF: &'static str =
    "https://cdn.discordapp.com/attachments/509717926807601182/1076652272701939882/whereis_screwattack.gif";

pub const VARIA_SUIT_GIF: &'static str =
    "https://cdn.discordapp.com/attachments/509717926807601182/1076652297825829025/whereis_variasuit.gif";

pub const SPACE_JUMP_GIF: &'static str =
    "https://cdn.discordapp.com/attachments/509717926807601182/1076652294717841489/whereis_spacejump.gif";

pub const SPEED_BOOSTER_GIF: &'static str =
    "https://cdn.discordapp.com/attachments/509717926807601182/1076652295556702258/whereis_speedbooster.gif";

pub const HIGH_JUMP_GIF: &'static str =
    "https://cdn.discordapp.com/attachments/509717926807601182/1076652270965497876/whereis_highjump.gif";

pub const GRAVITY_SUIT_GIF: &'static str =
    "https://cdn.discordapp.com/attachments/509717926807601182/1076652270407667812/whereis_gravitysuit.gif";

pub const CHARGE_BEAM_GIF: &'static str =
    "https://cdn.discordapp.com/attachments/509717926807601182/1076652269988225095/whereis_chargebeam.gif";

pub const ICE_BEAM_GIF: &'static str =
    "https://cdn.discordapp.com/attachments/509717926807601182/1076652271464611840/whereis_icebeam.gif";

pub const WAVE_BEAM_GIF: &'static str =
    "https://cdn.discordapp.com/attachments/509717926807601182/1076652300002656317/whereis_wavebeam.gif";

pub const SPAZER_BEAM_GIF: &'static str =
    "https://cdn.discordapp.com/attachments/509717926807601182/1076652295078555739/whereis_spazerbeam.gif";

pub const PLASMA_BEAM_GIF: &'static str =
    "https://cdn.discordapp.com/attachments/509717926807601182/1076652271909228646/whereis_plasmabeam.gif";

pub const SUPER_MISSILES_GIF: &'static str =
    "https://cdn.discordapp.com/attachments/509717926807601182/1076652296890490931/whereis_supermissiles.gif";

pub const POWER_BOMBS_GIF: &'static str =
    "https://cdn.discordapp.com/attachments/509717926807601182/1076652272324444180/whereis_powerbombs.gif";

/// The alias table of `whereis`: the markdown answer for a normalized
/// (trimmed, lowercase) key, or `None` where the key is no alias. Groups are
/// tried in table order; no alias belongs to two groups.
pub open spec fn whereis_target(key: Seq<char>) -> Option<Seq<char>> {
    if key == "faq"@ {
        Some(FAQ_LINK@)
    } else if key == "changelog"@ {
        Some(CHANGELOG_LINK@)
    } else if key == "doc"@ || key == "doctorm64"@ || key == "milton"@ {
        Some(DOC_NOTE@)
    } else if key == "ridley"@ || key == "kraid"@ || key == "croc"@ || key == "crocomire"@ {
        Some(BOSSES_NOTE@)
    } else if key == "druid"@ || key == "druidvorse"@ {
        Some(DRUID_NOTE@)
    } else if key == "sabre320"@ || key == "sabre"@ {
        Some(SABRE_NOTE@)
    } else if key == "syphonzoa"@ {
        Some(SYPHONZOA_NOTE@)
    } else if key == "am2r"@ || key == "am2r_11"@ || key == "am2r 1.1"@ {
        Some(AM2R_NOTE@)
    } else if key == "bomb"@ || key == "bombs"@ {
        Some(BOMBS_GIF@)
    } else if key == "spider"@ || key == "spider ball"@ || key == "spiderball"@ {
        Some(SPIDER_BALL_GIF@)
    } else if key == "spring"@ || key == "springball"@ || key == "spring ball"@ || key == "jumpball"@ || key == "jump ball"@ {
        Some(SPRING_BALL_GIF@)
    } else if key == "screw"@ || key == "screw attack"@ {
        Some(SCREW_ATTACK_GIF@)
    } else if key == "varia"@ || key == "varia suit"@ {
        Some(VARIA_SUIT_GIF@)
    } else if key == "space"@ || key == "spacejump"@ || key == "space jump"@ {
        Some(SPACE_JUMP_GIF@)
    } else if key == "speed"@ || key == "speedbooster"@ || key == "speed booster"@ {
        Some(SPEED_BOOSTER_GIF@)
    } else if key == "hijump"@ || key == "highjump"@ || key == "hi jump"@ || key == "high jump"@ {
        Some(HIGH_JUMP_GIF@)
    } else if key == "gravity"@ || key == "gravity suit"@ {
        Some(GRAVITY_SUIT_GIF@)
    } else if key == "charge"@ || key == "chargebeam"@ || key == "charge beam"@ {
        Some(CHARGE_BEAM_GIF@)
    } else if key == "ice"@ || key == "icebeam"@ || key == "ice beam"@ {
        Some(ICE_BEAM_GIF@)
    } else if key == "wave"@ || key == "wavebeam"@ || key == "wave beam"@ {
        Some(WAVE_BEAM_GIF@)
    } else if key == "spazer"@ || key == "spazerbeam"@ || key == "spazer beam"@ {
        Some(SPAZER_BEAM_GIF@)
    } else if key == "plasma"@ || key == "plasmabeam"@ || key == "plasma beam"@ {
        Some(PLASMA_BEAM_GIF@)
    } else if key == "super"@ || key == "supers"@ || key == "super missile"@ {
        Some(SUPER_MISSILES_GIF@)
    } else if key == "pbomb"@ || key == "pbombs"@ || key == "powerbomb"@ || key == "powerbombs"@ || key == "power bomb"@ || key == "power bombs"@ {
        Some(POWER_BOMBS_GIF@)
    } else {
        None
    }
}

/// The answer of `whereis` to a normalized key: its table entry, or the
/// fixed not-found message.
pub open spec fn whereis_answer(key: Seq<char>) -> Seq<char> {
    match whereis_target(key) {
        Some(m) => m,
        None => NOT_FOUND@,
    }
}

/// The normalized form of a `whereis` argument: trimmed, then lowercased.
pub open spec fn normalized(data: Seq<char>) -> Seq<char> {
    lower_of(trimmed(data))
}

/// No alias is empty.
proof fn lemma_aliases_nonempty(key: Seq<char>)
    requires
        whereis_target(key) is Some,
    ensures
        key.len() > 0,
{
    if key.len() == 0 {
        reveal_strlit("faq");
        reveal_strlit("changelog");
        reveal_strlit("doc");
        reveal_strlit("doctorm64");
        reveal_strlit("milton");
        reveal_strlit("ridley");
        reveal_strlit("kraid");
        reveal_strlit("croc");
        reveal_strlit("crocomire");
        reveal_strlit("druid");
        reveal_strlit("druidvorse");
        reveal_strlit("sabre320");
        reveal_strlit("sabre");
        reveal_strlit("syphonzoa");
        reveal_strlit("am2r");
        reveal_strlit("am2r_11");
        reveal_strlit("am2r 1.1");
        reveal_strlit("bomb");
        reveal_strlit("bombs");
        reveal_strlit("spider");
        reveal_strlit("spider ball");
        reveal_strlit("spiderball");
        reveal_strlit("spring");
        reveal_strlit("springball");
        reveal_strlit("spring ball");
        reveal_strlit("jumpball");
        reveal_strlit("jump ball");
        reveal_strlit("screw");
        reveal_strlit("screw attack");
        reveal_strlit("varia");
        reveal_strlit("varia suit");
        reveal_strlit("space");
        reveal_strlit("spacejump");
        reveal_strlit("space jump");
        reveal_strlit("speed");
        reveal_strlit("speedbooster");
        reveal_strlit("speed booster");
        reveal_strlit("hijump");
        reveal_strlit("highjump");
        reveal_strlit("hi jump");
        reveal_strlit("high jump");
        reveal_strlit("gravity");
        reveal_strlit("gravity suit");
        reveal_strlit("charge");
        reveal_strlit("chargebeam");
        reveal_strlit("charge beam");
        reveal_strlit("ice");
        reveal_strlit("icebeam");
        reveal_strlit("ice beam");
        reveal_strlit("wave");
        reveal_strlit("wavebeam");
        reveal_strlit("wave beam");
        reveal_strlit("spazer");
        reveal_strlit("spazerbeam");
        reveal_strlit("spazer beam");
        reveal_strlit("plasma");
        reveal_strlit("plasmabeam");
        reveal_strlit("plasma beam");
        reveal_strlit("super");
        reveal_strlit("supers");
        reveal_strlit("super missile");
        reveal_strlit("pbomb");
        reveal_strlit("pbombs");
        reveal_strlit("powerbomb");
        reveal_strlit("powerbombs");
        reveal_strlit("power bomb");
        reveal_strlit("power bombs");
    }
}

/// Looks a normalized key up in the alias table.
fn lookup(key: &str) -> (r: Option<&'static str>)
    ensures
        match whereis_target(key@) {
            Some(m) => r is Some && r->0@ == m,
            None => r is None,
        },
{
    if str_eq(key, "faq") {
        Some(FAQ_LINK)
    } else if str_eq(key, "changelog") {
        Some(CHANGELOG_LINK)
    } else if str_eq(key, "doc") || str_eq(key, "doctorm64") || str_eq(key, "milton") {
        Some(DOC_NOTE)
    } else if str_eq(key, "ridley") || str_eq(key, "kraid") || str_eq(key, "croc") || str_eq(key, "crocomire") {
        Some(BOSSES_NOTE)
    } else if str_eq(key, "druid") || str_eq(key, "druidvorse") {
        Some(DRUID_NOTE)
    } else if str_eq(key, "sabre320") || str_eq(key, "sabre") {
        Some(SABRE_NOTE)
    } else if str_eq(key, "syphonzoa") {
        Some(SYPHONZOA_NOTE)
    } else if str_eq(key, "am2r") || str_eq(key, "am2r_11") || str_eq(key, "am2r 1.1") {
        Some(AM2R_NOTE)
    } else if str_eq(key, "bomb") || str_eq(key, "bombs") {
        Some(BOMBS_GIF)
    } else if str_eq(key, "spider") || str_eq(key, "spider ball") || str_eq(key, "spiderball") {
        Some(SPIDER_BALL_GIF)
    } else if str_eq(key, "spring") || str_eq(key, "springball") || str_eq(key, "spring ball") || str_eq(key, "jumpball") || str_eq(key, "jump ball") {
        Some(SPRING_BALL_GIF)
    } else if str_eq(key, "screw") || str_eq(key, "screw attack") {
        Some(SCREW_ATTACK_GIF)
    } else if str_eq(key, "varia") || str_eq(key, "varia suit") {
        Some(VARIA_SUIT_GIF)
    } else if str_eq(key, "space") || str_eq(key, "spacejump") || str_eq(key, "space jump") {
        Some(SPACE_JUMP_GIF)
    } else if str_eq(key, "speed") || str_eq(key, "speedbooster") || str_eq(key, "speed booster") {
        Some(SPEED_BOOSTER_GIF)
    } else if str_eq(key, "hijump") || str_eq(key, "highjump") || str_eq(key, "hi jump") || str_eq(key, "high jump") {
        Some(HIGH_JUMP_GIF)
    } else if str_eq(key, "gravity") || str_eq(key, "gravity suit") {
        Some(GRAVITY_SUIT_GIF)
    } else if str_eq(key, "charge") || str_eq(key, "chargebeam") || str_eq(key, "charge beam") {
        Some(CHARGE_BEAM_GIF)
    } else if str_eq(key, "ice") || str_eq(key, "icebeam") || str_eq(key, "ice beam") {
        Some(ICE_BEAM_GIF)
    } else if str_eq(key, "wave") || str_eq(key, "wavebeam") || str_eq(key, "wave beam") {
        Some(WAVE_BEAM_GIF)
    } else if str_eq(key, "spazer") || str_eq(key, "spazerbeam") || str_eq(key, "spazer beam") {
        Some(SPAZER_BEAM_GIF)
    } else if str_eq(key, "plasma") || str_eq(key, "plasmabeam") || str_eq(key, "plasma beam") {
        Some(PLASMA_BEAM_GIF)
    } else if str_eq(key, "super") || str_eq(key, "supers") || str_eq(key, "super missile") {
        Some(SUPER_MISSILES_GIF)
    } else if str_eq(key, "pbomb") || str_eq(key, "pbombs") || str_eq(key, "powerbomb") || str_eq(key, "powerbombs") || str_eq(key, "power bomb") || str_eq(key, "power bombs") {
        Some(POWER_BOMBS_GIF)
    } else {
        None
    }
}

/// Answers `whereis` with the location of an item, looked up by alias.
pub struct WhereIs {}

impl WhereIs {
    pub fn get_command_name() -> (r: String)
        ensures
            r@ == "whereis"@,
    {
        "whereis".to_owned()
    }

    /// The answer to an argument that is already trimmed and lowercased.
    pub fn answer_normalized(key: &str) -> (r: Reply)
        ensures
            r@ == Payload::Markdown(whereis_answer(key@)),
    {
        match lookup(key) {
            Some(m) => Reply::markdown(m),
            None => Reply::markdown(NOT_FOUND),
        }
    }

    /// Trims and lowercases the argument, then answers with its table entry
    /// or with the not-found message.
    pub fn handle_message(data: &str) -> (r: Reply)
        ensures
            r@ == Payload::Markdown(whereis_answer(normalized(data@))),
            all_white_space(data@) ==> r@ == Payload::Markdown(NOT_FOUND@),
    {
        let key = to_lowercase(trim(data));
        proof {
            if all_white_space(data@) {
                lemma_trim_white_space(data@);
                if whereis_target(key@) is Some {
                    lemma_aliases_nonempty(key@);
                }
            }
        }
        WhereIs::answer_normalized(key.as_str())
    }
}

/// Case and surrounding white space do not matter to `whereis`: an argument
/// padded with white space on either side answers as the bare argument does,
/// and two arguments with the same lowercase form answer alike.
pub proof fn lemma_whereis_normalizes(p: Seq<char>, s: Seq<char>, t: Seq<char>, q: Seq<char>)
    requires
        all_white_space(p),
        all_white_space(q),
        lower_of(trimmed(s)) == lower_of(trimmed(t)),
    ensures
        whereis_answer(normalized(p + s + q)) == whereis_answer(normalized(t)),
{
    lemma_trimmed_surrounded(p, s, q);
}

/// An argument whose normalized form is no alias is answered with the
/// not-found message.
pub proof fn lemma_whereis_unknown_item(data: Seq<char>)
    requires
        whereis_target(normalized(data)) is None,
    ensures
        whereis_answer(normalized(data)) == NOT_FOUND@,
{
}

} // verus!
