//! Command-line handling and the headless scene run: which scene was asked
//! for, whether the configuration allows a run, and which lights a scene
//! touches.

use vstd::prelude::*;
use vstd::string::*;
use crate::config::{excluded_for, Config};
use crate::light::{opt_view, Light, LightInfo};
use crate::scene::{lower_of, scene_of_word, scene_settings, Scene};
use crate::text::{clone_opt_string, is_prefix, starts_with, str_eq};

verus! {

/// The value given to `--scene`, `-s` or `--scene=` at or after position
/// `i`; the first such flag decides, and a flag at the end gives nothing.
pub open spec fn scene_arg_from(args: Seq<String>, i: nat) -> Option<Seq<char>>
    decreases args.len() - i,
{
    if i >= args.len() {
        None
    } else if args[i as int]@ == "--scene"@ || args[i as int]@ == "-s"@ {
        if i + 1 < args.len() {
            Some(args[i + 1int]@)
        } else {
            None
        }
    } else if is_prefix("--scene="@, args[i as int]@) {
        Some(args[i as int]@.subrange(8, args[i as int]@.len() as int))
    } else {
        scene_arg_from(args, i + 1)
    }
}

/// The scene name given on the command line, if any.
pub fn parse_scene_arg(args: &[String]) -> (r: Option<String>)
    ensures
        match r {
            Some(s) => scene_arg_from(args@, 0) == Some(s@),
            None => scene_arg_from(args@, 0) is None,
        },
{
    let mut i: usize = 0;
    while i < args.len()
        invariant
            i <= args@.len(),
            scene_arg_from(args@, 0) == scene_arg_from(args@, i as nat),
        decreases args@.len() - i,
    {
        let arg = args[i].as_str();
        if str_eq(arg, "--scene") || str_eq(arg, "-s") {
            if i + 1 < args.len() {
                return Some(args[i + 1].clone());
            }
            return None;
        }
        if starts_with(arg, "--scene=") {
            proof {
                reveal_strlit("--scene=");
            }
            let rest = arg.substring_char(8, arg.unicode_len());
            return Some(String::from_str(rest));
        }
        i = i + 1;
    }
    None
}

/// Why a headless scene run cannot start.
#[derive(Debug, PartialEq, Eq)]
pub enum HeadlessError {
    /// The identity or the pre-shared key is empty.
    MissingCredentials,
    /// No scene has the given name.
    UnknownScene(String),
}

/// Checks the configuration and looks up the scene for a headless run.
pub fn headless_scene(config: &Config, scene_name: &str) -> (r: Result<Scene, HeadlessError>)
    ensures
        (config.gateway.identity@.len() == 0 || config.gateway.psk@.len() == 0) ==> r
            == Err::<Scene, HeadlessError>(HeadlessError::MissingCredentials),
        (config.gateway.identity@.len() > 0 && config.gateway.psk@.len() > 0) ==> match scene_of_word(
            lower_of(scene_name@),
        ) {
            Some(s) => r == Ok::<Scene, HeadlessError>(s),
            None => r matches Err(HeadlessError::UnknownScene(n)) && n@ == scene_name@,
        },
{
    if config.gateway.identity.as_str().is_empty() || config.gateway.psk.as_str().is_empty() {
        return Err(HeadlessError::MissingCredentials);
    }
    match Scene::from_str(scene_name) {
        Some(s) => Ok(s),
        None => Err(HeadlessError::UnknownScene(String::from_str(scene_name))),
    }
}

/// Identifiers of the lights a scene touches, in listing order.
pub open spec fn targets_of(cfg: Config, scene: Scene, lights: Seq<LightInfo>) -> Seq<u64>
    decreases lights.len(),
{
    if lights.len() == 0 {
        Seq::empty()
    } else {
        let rest = targets_of(cfg, scene, lights.drop_last());
        if excluded_for(cfg.scenes, scene, lights.last().name@) {
            rest
        } else {
            rest.push(lights.last().id)
        }
    }
}

/// Identifiers of the listed lights that `scene` is applied to: all but
/// the excluded ones.
pub fn scene_targets(config: &Config, scene: Scene, lights: &Vec<LightInfo>) -> (r: Vec<u64>)
    ensures
        r@ == targets_of(*config, scene, lights@),
{
    let mut ids: Vec<u64> = Vec::new();
    let mut i: usize = 0;
    while i < lights.len()
        invariant
            i <= lights@.len(),
            ids@ == targets_of(*config, scene, lights@.subrange(0, i as int)),
        decreases lights@.len() - i,
    {
        proof {
            assert(lights@.subrange(0, i + 1).drop_last() =~= lights@.subrange(0, i as int));
        }
        if !config.scenes.is_excluded_for_scene(scene, lights[i].name.as_str()) {
            ids.push(lights[i].id);
        }
        i = i + 1;
    }
    assert(lights@.subrange(0, lights@.len() as int) =~= lights@);
    ids
}

/// A light after a scene was applied to it: excluded lights stay as they
/// were; the others take the scene's power, and, when it switches them on,
/// its brightness and colour.
pub open spec fn scene_applied(cfg: Config, scene: Scene, before: Light, after: Light) -> bool {
    let (on, brightness, hex) = scene_settings(scene);
    if excluded_for(cfg.scenes, scene, before.name@) {
        after == before
    } else {
        &&& after.id == before.id
        &&& after.name == before.name
        &&& after.reachable == before.reachable
        &&& after.on == on
        &&& on ==> after.brightness == brightness && opt_view(after.color_hex) == Some(hex)
        &&& !on ==> after.brightness == before.brightness && after.color_hex == before.color_hex
    }
}

/// Applies a scene to local light snapshots, as the display shows them
/// before the gateway confirms.
pub fn apply_scene_locally(config: &Config, scene: Scene, lights: &mut Vec<Light>)
    ensures
        (forall|i: int| 0 <= i < old(lights)@.len() ==> (#[trigger] old(lights)@[i]).wf()) ==> (
        forall|i: int| 0 <= i < final(lights)@.len() ==> (#[trigger] final(lights)@[i]).wf()),
        final(lights)@.len() == old(lights)@.len(),
        forall|i: int|
            0 <= i < old(lights)@.len() ==> scene_applied(
                *config,
                scene,
                #[trigger] old(lights)@[i],
                final(lights)@[i],
            ),
{
    let (on, brightness, hex) = scene.settings();
    let n = lights.len();
    let mut i: usize = 0;
    while i < n
        invariant
            n == old(lights)@.len(),
            lights@.len() == n,
            i <= n,
            (on, brightness, hex@) == scene_settings(scene),
            brightness <= 254,
            forall|k: int| 0 <= k < i ==> (#[trigger] old(lights)@[k]).wf() ==> lights@[k].wf(),
            forall|k: int|
                0 <= k < i ==> scene_applied(*config, scene, #[trigger] old(lights)@[k], lights@[k]),
            forall|k: int| i <= k < n ==> lights@[k] == old(lights)@[k],
        decreases n - i,
    {
        if !config.scenes.is_excluded_for_scene(scene, lights[i].name.as_str()) {
            let cur = &lights[i];
            let l = Light {
                id: cur.id,
                name: cur.name.clone(),
                on,
                brightness: if on { brightness } else { cur.brightness },
                color_hex: if on { Some(String::from_str(hex)) } else { clone_opt_string(&cur.color_hex) },
                reachable: cur.reachable,
            };
            lights.set(i, l);
        }
        i = i + 1;
    }
    proof {
        if forall|k: int| 0 <= k < old(lights)@.len() ==> (#[trigger] old(lights)@[k]).wf() {
            assert forall|k: int| 0 <= k < lights@.len() implies (#[trigger] lights@[k]).wf() by {
                assert(old(lights)@[k].wf());
            }
        }
    }
}

} // verus!
