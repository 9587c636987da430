//! Named scenes: fixed power, brightness and colour settings applied to a
//! group of lights.

use vstd::prelude::*;
use crate::text::str_eq;

verus! {

#[derive(Debug, Clone, Copy, PartialEq, Eq, Structural)]
pub enum Scene {
    AllOn,
    AllOff,
    Movie,
    Bright,
    Cozy,
    Night,
    Evening,
    Reading,
    GoodMorning,
}

/// Key of a scene in the configuration's per-scene exclusions.
pub open spec fn scene_key(s: Scene) -> Seq<char> {
    match s {
        Scene::AllOn => "on"@,
        Scene::AllOff => "off"@,
        Scene::Movie => "movie"@,
        Scene::Bright => "bright"@,
        Scene::Cozy => "cozy"@,
        Scene::Night => "night"@,
        Scene::Evening => "evening"@,
        Scene::Reading => "reading"@,
        Scene::GoodMorning => "morning"@,
    }
}

/// Display name of a scene.
pub open spec fn scene_name(s: Scene) -> Seq<char> {
    match s {
        Scene::AllOn => "All On"@,
        Scene::AllOff => "All Off"@,
        Scene::Movie => "Movie"@,
        Scene::Bright => "Bright"@,
        Scene::Cozy => "Cozy"@,
        Scene::Night => "Night"@,
        Scene::Evening => "Evening"@,
        Scene::Reading => "Reading"@,
        Scene::GoodMorning => "Good Morning"@,
    }
}

/// Power, brightness and colour a scene sets.
pub open spec fn scene_settings(s: Scene) -> (bool, u8, Seq<char>) {
    match s {
        Scene::AllOn => (true, 254, "f5faf6"@),
        Scene::AllOff => (false, 0, "f5faf6"@),
        Scene::Movie => (true, 30, "f1e0b5"@),
        Scene::Bright => (true, 254, "f5faf6"@),
        Scene::Cozy => (true, 127, "f1e0b5"@),
        Scene::Night => (true, 15, "f1e0b5"@),
        Scene::Evening => (true, 150, "f1e0b5"@),
        Scene::Reading => (true, 200, "f5faf6"@),
        Scene::GoodMorning => (true, 180, "f5faf6"@),
    }
}

/// The scene a lower-case word names, in English or Swedish.
pub open spec fn scene_of_word(w: Seq<char>) -> Option<Scene> {
    if w == "on"@ || w == "allon"@ || w == "all-on"@ {
        Some(Scene::AllOn)
    } else if w == "off"@ || w == "alloff"@ || w == "all-off"@ {
        Some(Scene::AllOff)
    } else if w == "movie"@ || w == "film"@ {
        Some(Scene::Movie)
    } else if w == "bright"@ || w == "ljus"@ {
        Some(Scene::Bright)
    } else if w == "cozy"@ || w == "mysig"@ {
        Some(Scene::Cozy)
    } else if w == "night"@ || w == "natt"@ {
        Some(Scene::Night)
    } else if w == "evening"@ || w == "kväll"@ || w == "kvall"@ {
        Some(Scene::Evening)
    } else if w == "reading"@ || w == "läsning"@ || w == "lasning"@ {
        Some(Scene::Reading)
    } else if w == "morning"@ || w == "good-morning"@ || w == "morgon"@ {
        Some(Scene::GoodMorning)
    } else {
        None
    }
}

/// Lower-case form of a string, as `str::to_lowercase` gives it.
pub uninterp spec fn lower_of(s: Seq<char>) -> Seq<char>;

/// Relies on `str::to_lowercase`: the Unicode lower-case mapping of each
/// character.
#[verifier::external_body]
pub(crate) fn lowercase(s: &str) -> (r: String)
    ensures
        r@ == lower_of(s@),
{
    s.to_lowercase()
}

impl Scene {
    /// Key of the scene in the configuration.
    pub fn config_key(&self) -> (r: &'static str)
        ensures
            r@ == scene_key(*self),
    {
        match self {
            Scene::AllOn => "on",
            Scene::AllOff => "off",
            Scene::Movie => "movie",
            Scene::Bright => "bright",
            Scene::Cozy => "cozy",
            Scene::Night => "night",
            Scene::Evening => "evening",
            Scene::Reading => "reading",
            Scene::GoodMorning => "morning",
        }
    }

    /// Display name of the scene.
    pub fn name(&self) -> (r: &'static str)
        ensures
            r@ == scene_name(*self),
    {
        match self {
            Scene::AllOn => "All On",
            Scene::AllOff => "All Off",
            Scene::Movie => "Movie",
            Scene::Bright => "Bright",
            Scene::Cozy => "Cozy",
            Scene::Night => "Night",
            Scene::Evening => "Evening",
            Scene::Reading => "Reading",
            Scene::GoodMorning => "Good Morning",
        }
    }

    /// Power, brightness (0 to 254) and colour the scene sets.
    pub fn settings(&self) -> (r: (bool, u8, &'static str))
        ensures
            (r.0, r.1, r.2@) == scene_settings(*self),
            r.1 <= 254,
    {
        match self {
            Scene::AllOn => (true, 254, "f5faf6"),
            Scene::AllOff => (false, 0, "f5faf6"),
            Scene::Movie => (true, 30, "f1e0b5"),
            Scene::Bright => (true, 254, "f5faf6"),
            Scene::Cozy => (true, 127, "f1e0b5"),
            Scene::Night => (true, 15, "f1e0b5"),
            Scene::Evening => (true, 150, "f1e0b5"),
            Scene::Reading => (true, 200, "f5faf6"),
            Scene::GoodMorning => (true, 180, "f5faf6"),
        }
    }

    /// The scene named by a word that is already in lower case.
    pub fn from_lowercase(w: &str) -> (r: Option<Scene>)
        ensures
            r == scene_of_word(w@),
    {
        if str_eq(w, "on") || str_eq(w, "allon") || str_eq(w, "all-on") {
            Some(Scene::AllOn)
        } else if str_eq(w, "off") || str_eq(w, "alloff") || str_eq(w, "all-off") {
            Some(Scene::AllOff)
        } else if str_eq(w, "movie") || str_eq(w, "film") {
            Some(Scene::Movie)
        } else if str_eq(w, "bright") || str_eq(w, "ljus") {
            Some(Scene::Bright)
        } else if str_eq(w, "cozy") || str_eq(w, "mysig") {
            Some(Scene::Cozy)
        } else if str_eq(w, "night") || str_eq(w, "natt") {
            Some(Scene::Night)
        } else if str_eq(w, "evening") || str_eq(w, "kväll") || str_eq(w, "kvall") {
            Some(Scene::Evening)
        } else if str_eq(w, "reading") || str_eq(w, "läsning") || str_eq(w, "lasning") {
            Some(Scene::Reading)
        } else if str_eq(w, "morning") || str_eq(w, "good-morning") || str_eq(w, "morgon") {
            Some(Scene::GoodMorning)
        } else {
            None
        }
    }

    /// The scene a command-line word names, in any letter case.
    pub fn from_str(s: &str) -> (r: Option<Scene>)
        ensures
            r == scene_of_word(lower_of(s@)),
    {
        let lower = lowercase(s);
        Scene::from_lowercase(lower.as_str())
    }

    /// Every scene, in menu order.
    pub fn all() -> (r: &'static [Scene])
        ensures
            r@ == seq![
                Scene::AllOn,
                Scene::AllOff,
                Scene::Movie,
                Scene::Bright,
                Scene::Cozy,
                Scene::Night,
                Scene::Evening,
                Scene::Reading,
                Scene::GoodMorning,
            ],
    {
        &[
            Scene::AllOn,
            Scene::AllOff,
            Scene::Movie,
            Scene::Bright,
            Scene::Cozy,
            Scene::Night,
            Scene::Evening,
            Scene::Reading,
            Scene::GoodMorning,
        ]
    }
}

} // verus!
