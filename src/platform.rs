//! Where the game keeps its mods folder, per platform. The environment
//! values are handed in, so the choice is a function of its arguments.
use vstd::prelude::*;
use crate::path_text::{join, join_of};
use crate::text::{chars_of, string_of};

verus! {

/// The platform whose conventions apply.
#[derive(Clone, Copy, Debug, PartialEq, Eq, Structural)]
pub enum Platform {
    Windows,
    MacOs,
    Linux,
    Other,
}

/// The values of the environment variables that the paths start from.
#[derive(Clone, Debug)]
pub struct EnvDirs {
    /// `APPDATA`
    pub appdata: Option<String>,
    /// `HOME`
    pub home: Option<String>,
    /// `XDG_DATA_HOME`
    pub xdg_data_home: Option<String>,
}

/// `base/Hytale/UserData/Mods`.
pub open spec fn mods_under(base: Seq<char>) -> Seq<char> {
    join(join(join(base, "Hytale"@), "UserData"@), "Mods"@)
}

pub open spec fn windows_path(appdata: Seq<char>) -> Seq<char> {
    mods_under(appdata)
}

pub open spec fn macos_path(home: Seq<char>) -> Seq<char> {
    mods_under(join(join(home, "Library"@), "Application Support"@))
}

/// The Flatpak launcher's data directory.
pub open spec fn flatpak_path(home: Seq<char>) -> Seq<char> {
    mods_under(
        join(join(join(join(home, ".var"@), "app"@), "com.hypixel.HytaleLauncher"@), "data"@),
    )
}

pub open spec fn xdg_path(xdg: Seq<char>) -> Seq<char> {
    mods_under(xdg)
}

pub open spec fn local_share_path(home: Seq<char>) -> Seq<char> {
    mods_under(join(join(home, ".local"@), "share"@))
}

/// `list` with `x` added at the end unless it is there already.
pub open spec fn push_new(list: Seq<Seq<char>>, x: Seq<char>) -> Seq<Seq<char>> {
    if list.contains(x) {
        list
    } else {
        list.push(x)
    }
}

pub open spec fn views(v: Seq<String>) -> Seq<Seq<char>> {
    v.map_values(|s: String| s@)
}

/// The candidate mods folders, in order of preference, without repeats.
pub open spec fn default_paths(
    platform: Platform,
    appdata: Option<Seq<char>>,
    home: Option<Seq<char>>,
    xdg: Option<Seq<char>>,
) -> Seq<Seq<char>> {
    match platform {
        Platform::Windows => match appdata {
            Some(a) => seq![windows_path(a)],
            None => Seq::empty(),
        },
        Platform::MacOs => match home {
            Some(h) => seq![macos_path(h)],
            None => Seq::empty(),
        },
        Platform::Linux => {
            let first = match home {
                Some(h) => seq![flatpak_path(h)],
                None => Seq::<Seq<char>>::empty(),
            };
            let second = match xdg {
                Some(x) => push_new(first, xdg_path(x)),
                None => first,
            };
            match home {
                Some(h) => push_new(second, local_share_path(h)),
                None => second,
            }
        },
        Platform::Other => Seq::empty(),
    }
}

pub open spec fn opt_seq(o: Option<String>) -> Option<Seq<char>> {
    match o {
        Some(s) => Some(s@),
        None => None,
    }
}

/// Adds `x` at the end of `list` unless an equal path is there already.
fn push_new_of(list: &mut Vec<String>, x: String)
    ensures
        views(final(list)@) == push_new(views(old(list)@), x@),
{
    let mut i: usize = 0;
    while i < list.len()
        invariant
            i <= list@.len(),
            list@ == old(list)@,
            forall|j: int| 0 <= j < i ==> list@[j]@ != x@,
        decreases list@.len() - i,
    {
        if list[i] == x {
            assert(views(list@)[i as int] == x@);
            return;
        }
        i = i + 1;
    }
    assert(!views(list@).contains(x@)) by {
        if views(list@).contains(x@) {
            let j = choose|j: int| 0 <= j < views(list@).len() && views(list@)[j] == x@;
            assert(list@[j]@ == x@);
        }
    }
    list.push(x);
    assert(views(list@) =~= views(old(list)@).push(x@));
}

fn mods_under_of(base: Vec<char>) -> (r: String)
    ensures
        r@ == mods_under(base@),
{
    let a = join_of(&base, &chars_of("Hytale"));
    let b = join_of(&a, &chars_of("UserData"));
    string_of(&join_of(&b, &chars_of("Mods")))
}

/// The candidate mods folders for `platform`, given the environment values;
/// a path already listed is not listed again.
pub fn default_mods_paths(platform: Platform, env: &EnvDirs) -> (r: Vec<String>)
    ensures
        views(r@) == default_paths(
            platform,
            opt_seq(env.appdata),
            opt_seq(env.home),
            opt_seq(env.xdg_data_home),
        ),
{
    let mut out: Vec<String> = Vec::new();
    assert(views(out@) =~= Seq::<Seq<char>>::empty());
    match platform {
        Platform::Windows => {
            if let Some(a) = &env.appdata {
                out.push(mods_under_of(chars_of(a.as_str())));
                assert(views(out@) =~= seq![windows_path(a@)]);
            }
        },
        Platform::MacOs => {
            if let Some(h) = &env.home {
                let l = join_of(&chars_of(h.as_str()), &chars_of("Library"));
                out.push(mods_under_of(join_of(&l, &chars_of("Application Support"))));
                assert(views(out@) =~= seq![macos_path(h@)]);
            }
        },
        Platform::Linux => {
            if let Some(h) = &env.home {
                let a = join_of(&chars_of(h.as_str()), &chars_of(".var"));
                let b = join_of(&a, &chars_of("app"));
                let c = join_of(&b, &chars_of("com.hypixel.HytaleLauncher"));
                out.push(mods_under_of(join_of(&c, &chars_of("data"))));
                assert(views(out@) =~= seq![flatpak_path(h@)]);
            }
            if let Some(x) = &env.xdg_data_home {
                push_new_of(&mut out, mods_under_of(chars_of(x.as_str())));
            }
            if let Some(h) = &env.home {
                let a = join_of(&chars_of(h.as_str()), &chars_of(".local"));
                push_new_of(&mut out, mods_under_of(join_of(&a, &chars_of("share"))));
            }
        },
        Platform::Other => {},
    }
    out
}

} // verus!
