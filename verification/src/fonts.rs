//! Registration of the overlay's own font, and the one-shot loader that
//! performs it as soon as the font file's bytes are at hand.

use egui::FontDefinitions;
use vstd::prelude::*;

verus! {

/// `egui::FontDefinitions`: the font files known by name, and for each font
/// family the names to try, in order of priority. Verus sees none of its
/// fields; the three functions below name what it holds.
#[verifier::external_type_specification]
#[verifier::external_body]
pub struct ExFontDefinitions(egui::FontDefinitions);

/// The font files that `defs` registers (its field `font_data`): each name
/// with the bytes of its file.
pub uninterp spec fn registered_fonts(defs: FontDefinitions) -> Map<Seq<char>, Seq<u8>>;

/// The font names that `defs` lists for the proportional family (its field
/// `families` under `FontFamily::Proportional`), first choice first; empty
/// where the family has no entry.
pub uninterp spec fn proportional_fonts(defs: FontDefinitions) -> Seq<Seq<char>>;

/// The font names that `defs` lists for the monospace family (its field
/// `families` under `FontFamily::Monospace`), first choice first; empty
/// where the family has no entry.
pub uninterp spec fn monospace_fonts(defs: FontDefinitions) -> Seq<Seq<char>>;

/// The name under which the overlay's font is registered.
pub open spec fn font_name() -> Seq<char> {
    "my_font"@
}

/// `FontDefinitions::default()`: the definitions that egui starts from.
/// Which fonts they hold depends on how egui was built, so nothing is
/// claimed of them.
#[verifier::external_body]
fn default_definitions() -> (defs: FontDefinitions) {
    FontDefinitions::default()
}

/// Stores `FontData::from_owned(bytes)` under `name` in the field
/// `font_data`, as `BTreeMap::insert` does: the name then stands for these
/// bytes, whatever it stood for before. The family lists are not touched.
#[verifier::external_body]
fn register_font(defs: &mut FontDefinitions, name: &str, bytes: Vec<u8>)
    ensures
        registered_fonts(*final(defs)) == registered_fonts(*old(defs)).insert(name@, bytes@),
        proportional_fonts(*final(defs)) == proportional_fonts(*old(defs)),
        monospace_fonts(*final(defs)) == monospace_fonts(*old(defs)),
{
    defs.font_data.insert(name.to_owned(), egui::FontData::from_owned(bytes));
}

/// `Vec::insert` on the proportional family's list (created empty where the
/// family had no entry): `name` takes the place `index`, and what stood
/// there or after it moves one place back. `Vec::insert` panics on an index
/// beyond the list's length. Nothing else is touched.
#[verifier::external_body]
fn insert_proportional(defs: &mut FontDefinitions, index: usize, name: &str)
    requires
        index <= proportional_fonts(*old(defs)).len(),
    ensures
        proportional_fonts(*final(defs)) == proportional_fonts(*old(defs)).insert(
            index as int,
            name@,
        ),
        monospace_fonts(*final(defs)) == monospace_fonts(*old(defs)),
        registered_fonts(*final(defs)) == registered_fonts(*old(defs)),
{
    defs.families.entry(egui::FontFamily::Proportional).or_default().insert(index, name.to_owned());
}

/// `Vec::push` on the monospace family's list (created empty where the
/// family had no entry): `name` becomes its last entry. Nothing else is
/// touched.
#[verifier::external_body]
fn push_monospace(defs: &mut FontDefinitions, name: &str)
    ensures
        monospace_fonts(*final(defs)) == monospace_fonts(*old(defs)).push(name@),
        proportional_fonts(*final(defs)) == proportional_fonts(*old(defs)),
        registered_fonts(*final(defs)) == registered_fonts(*old(defs)),
{
    defs.families.entry(egui::FontFamily::Monospace).or_default().push(name.to_owned());
}

/// Whether `after` is `before` with the overlay's font installed from
/// `bytes`: registered under its name, first choice of the proportional
/// family, last fallback of the monospace family, and all else as it was.
pub open spec fn installed(before: FontDefinitions, bytes: Seq<u8>, after: FontDefinitions) -> bool {
    &&& registered_fonts(after) == registered_fonts(before).insert(font_name(), bytes)
    &&& proportional_fonts(after) == seq![font_name()] + proportional_fonts(before)
    &&& monospace_fonts(after) == monospace_fonts(before).push(font_name())
}

/// Installs the overlay's font into `defs`.
pub fn install_font(defs: &mut FontDefinitions, bytes: Vec<u8>)
    ensures
        installed(*old(defs), bytes@, *final(defs)),
{
    register_font(defs, "my_font", bytes);
    insert_proportional(defs, 0, "my_font");
    push_monospace(defs, "my_font");
    assert(proportional_fonts(*defs) =~= seq![font_name()] + proportional_fonts(*old(defs)));
}

/// Whether `defs` carries the overlay's font with the file `bytes`: the name
/// is registered for these bytes, it is the first choice of the proportional
/// family and the last fallback of the monospace family.
pub open spec fn carries_font(defs: FontDefinitions, bytes: Seq<u8>) -> bool {
    &&& registered_fonts(defs).contains_key(font_name())
    &&& registered_fonts(defs)[font_name()] == bytes
    &&& proportional_fonts(defs).len() > 0
    &&& proportional_fonts(defs).first() == font_name()
    &&& monospace_fonts(defs).len() > 0
    &&& monospace_fonts(defs).last() == font_name()
}

/// Definitions into which the font was installed carry it, whatever they
/// held before.
pub proof fn installed_carries_font(before: FontDefinitions, bytes: Seq<u8>, after: FontDefinitions)
    requires
        installed(before, bytes, after),
    ensures
        carries_font(after, bytes),
        proportional_fonts(after).len() == proportional_fonts(before).len() + 1,
        monospace_fonts(after).len() == monospace_fonts(before).len() + 1,
        forall|i: int|
            0 <= i < proportional_fonts(before).len() ==> proportional_fonts(after)[i + 1]
                == proportional_fonts(before)[i],
        forall|i: int|
            0 <= i < monospace_fonts(before).len() ==> monospace_fonts(after)[i]
                == monospace_fonts(before)[i],
{
}

/// The two states of the font loader.
#[derive(Clone, Copy, Debug, PartialEq, Eq, Structural)]
pub enum FontState {
    /// The font has not been installed yet.
    Unloaded,
    /// The font has been installed; nothing is left to do.
    Loaded,
}

/// The state after one check, made in `state` with the font's bytes at hand
/// (`available`) or not.
pub open spec fn step(state: FontState, available: bool) -> FontState {
    if state == FontState::Loaded || available {
        FontState::Loaded
    } else {
        FontState::Unloaded
    }
}

/// Whether a check made in `state` installs the font.
pub open spec fn installs(state: FontState, available: bool) -> bool {
    state == FontState::Unloaded && available
}

/// The state after a run of checks, one for each entry of `available`, in
/// order, started in `state`.
pub open spec fn run(state: FontState, available: Seq<bool>) -> FontState
    decreases available.len(),
{
    if available.len() == 0 {
        state
    } else {
        step(run(state, available.drop_last()), available.last())
    }
}

/// How many checks of such a run install the font.
pub open spec fn install_count(state: FontState, available: Seq<bool>) -> nat
    decreases available.len(),
{
    if available.len() == 0 {
        0
    } else {
        let earlier = available.drop_last();
        let here: nat = if installs(run(state, earlier), available.last()) {
            1
        } else {
            0
        };
        install_count(state, earlier) + here
    }
}

/// The overlay's font loader: installs the font at the first check that
/// finds the font's bytes, and does nothing ever after.
pub struct FontAssetLoader {
    state: FontState,
}

impl FontAssetLoader {
    /// The loader's state.
    pub closed spec fn state(&self) -> FontState {
        self.state
    }

    /// A loader that has not installed the font yet.
    pub fn new() -> (loader: Self)
        ensures
            loader.state() == FontState::Unloaded,
    {
        FontAssetLoader { state: FontState::Unloaded }
    }

    /// Whether the font has been installed.
    pub fn is_loaded(&self) -> (loaded: bool)
        ensures
            loaded == (self.state() == FontState::Loaded),
    {
        self.state == FontState::Loaded
    }

    /// One check. `font_bytes` holds the font file where it has been
    /// resolved. An unloaded loader that is given the bytes returns the
    /// definitions to hand to the host, egui's defaults with the font
    /// installed, and becomes loaded; every other check returns nothing and
    /// leaves the state as it is.
    pub fn check(&mut self, font_bytes: Option<Vec<u8>>) -> (fonts: Option<FontDefinitions>)
        ensures
            final(self).state() == step(old(self).state(), font_bytes is Some),
            fonts is Some <==> installs(old(self).state(), font_bytes is Some),
            fonts is Some ==> carries_font(fonts->0, font_bytes->0@),
    {
        if self.state == FontState::Loaded {
            return None;
        }
        match font_bytes {
            None => None,
            Some(bytes) => {
                let mut defs = default_definitions();
                let ghost before = defs;
                install_font(&mut defs, bytes);
                proof {
                    installed_carries_font(before, bytes@, defs);
                }
                self.state = FontState::Loaded;
                Some(defs)
            },
        }
    }
}

/// Once loaded, always loaded: no run of checks leaves the loaded state, and
/// none of its checks installs anything.
pub proof fn loaded_is_final(available: Seq<bool>)
    ensures
        run(FontState::Loaded, available) == FontState::Loaded,
        install_count(FontState::Loaded, available) == 0,
    decreases available.len(),
{
    if available.len() > 0 {
        loaded_is_final(available.drop_last());
    }
}

/// A run started unloaded is loaded exactly when some check of it found the
/// bytes, and it installs the font once in that case and never otherwise:
/// no run installs the font twice.
pub proof fn installs_at_most_once(available: Seq<bool>)
    ensures
        (run(FontState::Unloaded, available) == FontState::Loaded) <==> available.contains(true),
        install_count(FontState::Unloaded, available) == if available.contains(true) {
            1nat
        } else {
            0nat
        },
    decreases available.len(),
{
    if available.len() > 0 {
        let earlier = available.drop_last();
        installs_at_most_once(earlier);
        if earlier.contains(true) {
            let i = choose|i: int| 0 <= i < earlier.len() && earlier[i] == true;
            assert(available[i] == true);
        }
        if available.last() {
            assert(available[available.len() - 1] == true);
        }
        if available.contains(true) && !available.last() {
            let i = choose|i: int| 0 <= i < available.len() && available[i] == true;
            assert(earlier[i] == true);
        }
    }
}

/// With the bytes missing at the first check and at hand from the second
/// check on, the font is installed exactly once, by the second check, and
/// the loader is loaded after the second check and after every later one.
pub proof fn installs_once_at_second_check(available: Seq<bool>)
    requires
        available.len() >= 2,
        !available[0],
        forall|i: int| 1 <= i < available.len() ==> available[i],
    ensures
        install_count(FontState::Unloaded, available) == 1,
        run(FontState::Unloaded, available.take(1)) == FontState::Unloaded,
        installs(run(FontState::Unloaded, available.take(1)), available[1]),
        forall|k: int|
            2 <= k <= available.len() ==> #[trigger] run(FontState::Unloaded, available.take(k))
                == FontState::Loaded,
{
    assert(available[1] == true);
    installs_at_most_once(available);
    let first = available.take(1);
    installs_at_most_once(first);
    assert(!first.contains(true)) by {
        if first.contains(true) {
            let i = choose|i: int| 0 <= i < first.len() && first[i] == true;
            assert(first[i] == available[i]);
        }
    }
    assert forall|k: int| 2 <= k <= available.len() implies #[trigger] run(
        FontState::Unloaded,
        available.take(k),
    ) == FontState::Loaded by {
        let prefix = available.take(k);
        installs_at_most_once(prefix);
        assert(prefix[1] == true);
    }
}

} // verus!
