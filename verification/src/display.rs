//! How the rendering collaborator should display one item, decided from the
//! item's cached attributes: a passive item is hidden; an active item shows
//! its icon and an attention-needing item its attention icon; and whenever
//! the item advertises an icon theme path the icon is loaded as a file from
//! that directory, otherwise it is resolved by name lookup.

use vstd::prelude::*;
use vstd::string::StringExecFns;

use crate::kinds::Status;

verus! {

/// What the rendering collaborator should show for one item.
#[derive(Debug, Clone, PartialEq, Eq)]
pub enum IconDisplay {
    /// The item is passive and is not shown at all.
    Hidden,
    /// Load the icon from this file on disk.
    ThemeFile { file: String },
    /// Resolve the icon by this name in the icon theme.
    Named { name: String },
}

/// The file an icon named `name` resolves to under the theme directory
/// `theme_path`.
pub open spec fn spec_icon_file(theme_path: Seq<char>, name: Seq<char>) -> Seq<char> {
    theme_path + "/"@ + name + ".png"@
}

/// Resolve one icon name against an advertised theme path: a file under a
/// non-empty theme path, a name lookup otherwise.
pub fn icon_source(theme_path: &str, name: &str) -> (r: IconDisplay)
    ensures
        theme_path@.len() > 0 ==> (r matches IconDisplay::ThemeFile { file } && file@
            == spec_icon_file(theme_path@, name@)),
        theme_path@.len() == 0 ==> (r matches IconDisplay::Named { name: n } && n@ == name@),
{
    if theme_path.is_empty() {
        IconDisplay::Named { name: name.to_owned() }
    } else {
        let mut file = theme_path.to_owned();
        file.append("/");
        file.append(name);
        file.append(".png");
        proof {
            assert(file@ =~= spec_icon_file(theme_path@, name@));
        }
        IconDisplay::ThemeFile { file }
    }
}

/// Decide how to display one item: passive items are hidden, active items
/// show their icon, attention-needing items their attention icon, each
/// resolved against the advertised theme path.
pub fn select_icon(status: Status, theme_path: &str, icon_name: &str, attention_icon_name: &str) -> (r:
    IconDisplay)
    ensures
        (r is Hidden) <==> status == Status::Passive,
        status == Status::Active && theme_path@.len() > 0 ==> (r matches IconDisplay::ThemeFile {
            file,
        } && file@ == spec_icon_file(theme_path@, icon_name@)),
        status == Status::Active && theme_path@.len() == 0 ==> (r matches IconDisplay::Named {
            name,
        } && name@ == icon_name@),
        status == Status::NeedsAttention && theme_path@.len() > 0 ==> (r
            matches IconDisplay::ThemeFile {
            file,
        } && file@ == spec_icon_file(theme_path@, attention_icon_name@)),
        status == Status::NeedsAttention && theme_path@.len() == 0 ==> (r
            matches IconDisplay::Named {
            name,
        } && name@ == attention_icon_name@),
{
    match status {
        Status::Passive => IconDisplay::Hidden,
        Status::Active => icon_source(theme_path, icon_name),
        Status::NeedsAttention => icon_source(theme_path, attention_icon_name),
    }
}

} // verus!
