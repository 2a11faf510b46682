//! Validation of a loaded configuration: the active layout and its keymap.
use crate::config::models::{Config, ConfigView, Identify, Layout, LayoutView, layout_views};
use crate::text::{chars_of, decimal_i32, int_decimal, same_text, string_of};
use vstd::prelude::*;

verus! {

#[verifier::external_type_specification]
#[verifier::external_body]
pub struct ExEnumParseError(evdev::EnumParseError);

/// The code of the `evdev::KeyCode` constant named `name` (such as `KEY_KP7`),
/// if there is one, as `KeyCode::from_str` finds it.
pub uninterp spec fn evdev_key_code(name: Seq<char>) -> Option<u16>;

/// `evdev::KeyCode::from_str(name)`, the code taken out of the `KeyCode`.
/// Claimed: `Ok` exactly when [`evdev_key_code`] of the name is a code, and
/// then that code.
#[verifier::external_body]
fn key_code_from_name(name: &str) -> (r: Result<u16, evdev::EnumParseError>)
    ensures
        r matches Ok(c) ==> evdev_key_code(name@) == Some(c),
        r is Err ==> evdev_key_code(name@) is None,
{
    <evdev::KeyCode as std::str::FromStr>::from_str(name).map(|k| k.code())
}

/// The text of evdev's `EnumParseError`.
pub open spec fn key_parse_error_text() -> Seq<char> {
    "failed to parse Key from string"@
}

/// The text of an `evdev::EnumParseError` (`ToString` through its `Display`).
/// Claimed: it is the fixed message that evdev's `Display` writes,
/// `failed to parse Key from string`.
#[verifier::external_body]
fn parse_error_text(e: &evdev::EnumParseError) -> (s: String)
    ensures
        s@ == key_parse_error_text(),
{
    e.to_string()
}

/// Errors of loading and validating the configuration.
#[derive(Debug, PartialEq)]
pub enum ConfigError {
    /// The configuration file does not exist; holds its path.
    FileNotFound(String),
    /// The configuration file is read-only; holds its path.
    PermissionDenied(String),
    /// `layout_name` is `auto` and the board name could not be read.
    BoardNameUnavailable,
    /// No layout has the name; holds the name.
    LayoutNotFound(String),
    /// The keymap is not a grid of `rows` rows of `cols` names each; holds
    /// the layout's declared sizes.
    GridMismatch { rows: u8, cols: u8 },
    /// A keymap entry is not the name of an `evdev::KeyCode`; holds the name
    /// and evdev's description of the failure.
    UnknownKeyName { name: String, reason: String },
}

impl ConfigError {
    /// The error's message.
    pub fn message(&self) -> (s: String)
        ensures
            self matches ConfigError::FileNotFound(p) ==> s@ == "The file '"@ + p@
                + "' could not be found"@,
            self matches ConfigError::PermissionDenied(p) ==> s@ == "Permission denied for the '"@
                + p@ + "' file"@,
            self is BoardNameUnavailable ==> s@ == "The board name could not be read"@,
            self matches ConfigError::LayoutNotFound(n) ==> s@ == "The name '"@ + n@
                + "' was not found in the list of layouts"@,
            self matches ConfigError::GridMismatch { rows, cols } ==> s@
                == "The keymap is not a grid of "@ + int_decimal(rows as int) + " rows and "@
                + int_decimal(cols as int) + " columns"@,
            self matches ConfigError::UnknownKeyName { name, reason } ==> s@ == reason@,
    {
        match self {
            ConfigError::FileNotFound(p) => {
                let mut s = String::from_str("The file '");
                s.append(p.as_str());
                s.append("' could not be found");
                s
            },
            ConfigError::PermissionDenied(p) => {
                let mut s = String::from_str("Permission denied for the '");
                s.append(p.as_str());
                s.append("' file");
                s
            },
            ConfigError::BoardNameUnavailable => String::from_str("The board name could not be read"),
            ConfigError::LayoutNotFound(n) => {
                let mut s = String::from_str("The name '");
                s.append(n.as_str());
                s.append("' was not found in the list of layouts");
                s
            },
            ConfigError::GridMismatch { rows, cols } => {
                let mut s = String::from_str("The keymap is not a grid of ");
                s.append(string_of(decimal_i32(*rows as i32).as_slice()).as_str());
                s.append(" rows and ");
                s.append(string_of(decimal_i32(*cols as i32).as_slice()).as_str());
                s.append(" columns");
                s
            },
            ConfigError::UnknownKeyName { name, reason } => reason.clone(),
        }
    }
}

/// The keymap is a grid of `rows` rows of `cols` names each.
pub open spec fn keymap_is_grid(l: LayoutView) -> bool {
    &&& l.keymap.len() == l.rows as int
    &&& forall|i: int| 0 <= i < l.keymap.len() ==> #[trigger] l.keymap[i].len() == l.cols as int
}

/// Every name of the keymap names an `evdev::KeyCode`.
pub open spec fn all_keys_known(km: Seq<Seq<Seq<char>>>) -> bool {
    forall|i: int, j: int|
        0 <= i < km.len() && 0 <= j < km[i].len() ==> (#[trigger] evdev_key_code(km[i][j])) is Some
}

/// The key codes of a keymap whose names are all known, cell by cell.
pub open spec fn resolved_keymap(km: Seq<Seq<Seq<char>>>) -> Seq<Seq<u16>> {
    Seq::new(km.len(), |i: int| Seq::new(km[i].len(), |j: int| evdev_key_code(km[i][j])->0))
}

/// The cell `(i, j)` holds an unknown name and every cell before it, in
/// row-major order, a known one.
pub open spec fn first_unknown_key(km: Seq<Seq<Seq<char>>>, i: int, j: int) -> bool {
    &&& 0 <= i < km.len()
    &&& 0 <= j < km[i].len()
    &&& evdev_key_code(km[i][j]) is None
    &&& forall|a: int, b: int|
        0 <= a < km.len() && 0 <= b < km[a].len() && (a < i || (a == i && b < j)) ==> (
        #[trigger] evdev_key_code(km[a][b])) is Some
}

/// The first index at or after `i` of a layout with the name.
pub open spec fn find_layout(ls: Seq<LayoutView>, name: Seq<char>, i: int) -> Option<int>
    decreases ls.len() - i,
{
    if i < 0 || i >= ls.len() {
        None
    } else if ls[i].name == name {
        Some(i)
    } else {
        find_layout(ls, name, i + 1)
    }
}

/// The layout that the search finds has the wanted name, and no layout
/// before it does; the search fails only when no layout has the name.
pub proof fn law_found_layout_has_wanted_name(ls: Seq<LayoutView>, name: Seq<char>, i: int)
    requires
        0 <= i,
    ensures
        find_layout(ls, name, i) matches Some(k) ==> i <= k < ls.len() && ls[k].name == name
            && forall|j: int| i <= j < k ==> ls[j].name != name,
        find_layout(ls, name, i) is None ==> forall|j: int| i <= j < ls.len() ==> ls[j].name != name,
    decreases ls.len() - i,
{
    if i < ls.len() && ls[i].name != name {
        law_found_layout_has_wanted_name(ls, name, i + 1);
    }
}

/// The text of an optional string slice.
pub open spec fn opt_text(o: Option<&str>) -> Option<Seq<char>> {
    match o {
        Some(s) => Some(s@),
        None => None,
    }
}

/// The name of the layout to activate: `layout_name`, or the board name when
/// `layout_name` is `auto`.
pub open spec fn wanted_layout_name(c: ConfigView, board_name: Option<Seq<char>>) -> Option<Seq<char>> {
    if c.layout_name == "auto"@ {
        board_name
    } else {
        Some(c.layout_name)
    }
}

impl Layout {
    /// Resolves every key name of the keymap into its `evdev::KeyCode` code,
    /// keeping the grid's shape; an error names the first unknown name in
    /// row-major order.
    pub fn validate(&self) -> (r: Result<Vec<Vec<u16>>, ConfigError>)
        ensures
            r is Ok <==> all_keys_known(self@.keymap),
            r matches Ok(g) ==> g.deep_view() == resolved_keymap(self@.keymap),
            r is Err ==> (r matches Err(ConfigError::UnknownKeyName { name, reason })
                && reason@ == key_parse_error_text() && exists|i: int, j: int|
                first_unknown_key(self@.keymap, i, j) && self@.keymap[i][j] == name@),
    {
        let ghost km = self@.keymap;
        let mut grid: Vec<Vec<u16>> = Vec::new();
        let n: usize = self.keymap.len();
        for i in 0..n
            invariant
                n == km.len(),
                km == self.keymap.deep_view(),
                grid@.len() == i,
                forall|a: int, b: int|
                    0 <= a < i && 0 <= b < km[a].len() ==> (#[trigger] evdev_key_code(km[a][b])) is Some,
                forall|a: int| 0 <= a < i ==> #[trigger] grid@[a]@ == resolved_keymap(km)[a],
        {
            let row = &self.keymap[i];
            let m: usize = row.len();
            let mut codes: Vec<u16> = Vec::new();
            for j in 0..m
                invariant
                    n == km.len(),
                    i < n,
                    km == self.keymap.deep_view(),
                    m == km[i as int].len(),
                    row@ == self.keymap@[i as int]@,
                    codes@.len() == j,
                    forall|a: int, b: int|
                        0 <= a < i && 0 <= b < km[a].len() ==> (#[trigger] evdev_key_code(km[a][b])) is Some,
                    forall|b: int| 0 <= b < j ==> (#[trigger] evdev_key_code(km[i as int][b])) is Some,
                    forall|b: int| 0 <= b < j ==> #[trigger] codes@[b] == evdev_key_code(km[i as int][b])->0,
            {
                assert(km[i as int][j as int] == row@[j as int]@);
                match key_code_from_name(row[j].as_str()) {
                    Ok(c) => {
                        codes.push(c);
                    },
                    Err(e) => {
                        let name = row[j].clone();
                        let reason = parse_error_text(&e);
                        assert(first_unknown_key(km, i as int, j as int));
                        return Err(ConfigError::UnknownKeyName { name, reason });
                    },
                }
            }
            assert(codes@ =~= resolved_keymap(km)[i as int]);
            grid.push(codes);
        }
        assert forall|a: int| 0 <= a < n implies #[trigger] grid.deep_view()[a]
            == resolved_keymap(km)[a] by {
            assert(grid@[a].deep_view() =~= grid@[a]@);
        }
        assert(grid.deep_view() =~= resolved_keymap(km));
        Ok(grid)
    }

    /// Whether the keymap is a `rows × cols` grid; the grid error if not.
    pub fn check_grid(&self) -> (r: Result<(), ConfigError>)
        ensures
            keymap_is_grid(self@) ==> r is Ok,
            !keymap_is_grid(self@) ==> r == Err::<(), ConfigError>(
                ConfigError::GridMismatch { rows: self.rows, cols: self.cols },
            ),
    {
        let n: usize = self.keymap.len();
        if n != self.rows as usize {
            return Err(ConfigError::GridMismatch { rows: self.rows, cols: self.cols });
        }
        let ghost km = self@.keymap;
        for i in 0..n
            invariant
                n == km.len(),
                km == self.keymap.deep_view(),
                n == self.rows as int,
                forall|a: int| 0 <= a < i ==> #[trigger] km[a].len() == self.cols as int,
        {
            assert(km[i as int].len() == self.keymap@[i as int]@.len());
            if self.keymap[i].len() != self.cols as usize {
                return Err(ConfigError::GridMismatch { rows: self.rows, cols: self.cols });
            }
        }
        Ok(())
    }
}

impl Config {
    /// Whether the layout is chosen from the board name (`layout_name` is `auto`).
    pub fn needs_board_name(&self) -> (b: bool)
        ensures
            b == (self@.layout_name == "auto"@),
    {
        same_text(&chars_of(self.layout_name.as_str()), &chars_of("auto"))
    }

    /// The active layout: the first layout whose name is `layout_name`, or,
    /// when `layout_name` is `auto`, the board name `board_name` read from
    /// `/sys/class/dmi/id/board_name` (see `Utils::board_name_from_dmi`).
    pub fn validate(&self, board_name: Option<&str>) -> (r: Result<&Layout, ConfigError>)
        ensures
            match wanted_layout_name(self@, opt_text(board_name)) {
                None => r == Err::<&Layout, ConfigError>(ConfigError::BoardNameUnavailable),
                Some(name) => match find_layout(self@.layouts, name, 0) {
                    Some(i) => r matches Ok(l) && l@ == self@.layouts[i],
                    None => r matches Err(ConfigError::LayoutNotFound(n)) && n@ == name,
                },
            },
    {
        let name: Vec<char> = if self.needs_board_name() {
            match board_name {
                Some(b) => chars_of(b),
                None => {
                    return Err(ConfigError::BoardNameUnavailable);
                },
            }
        } else {
            chars_of(self.layout_name.as_str())
        };
        let ghost views = layout_views(self.layouts@);
        assert(wanted_layout_name(self@, opt_text(board_name)) == Some(name@));
        let n: usize = self.layouts.len();
        let mut i: usize = 0;
        while i < n
            invariant
                n == self.layouts@.len(),
                views == layout_views(self.layouts@),
                views == self@.layouts,
                wanted_layout_name(self@, opt_text(board_name)) == Some(name@),
                i <= n,
                find_layout(views, name@, 0) == find_layout(views, name@, i as int),
            decreases n - i,
        {
            assert(views[i as int] == self.layouts@[i as int]@);
            if same_text(&chars_of(self.layouts[i].name.as_str()), &name) {
                return Ok(&self.layouts[i]);
            }
            i = i + 1;
        }
        Err(ConfigError::LayoutNotFound(crate::text::string_of(name.as_slice())))
    }

    /// The configuration that the driver runs with: the identification
    /// settings, the active layout (see [`Config::validate`]) and its resolved
    /// key grid. The layout fails validation when its keymap is not a
    /// `rows × cols` grid (see [`Layout::check_grid`]) or holds an unknown key
    /// name (see [`Layout::validate`]).
    pub fn resolve(&self, board_name: Option<&str>) -> (r: Result<
        (Identify, Layout, Vec<Vec<u16>>),
        ConfigError,
    >)
        ensures
            match wanted_layout_name(self@, opt_text(board_name)) {
                None => r == Err::<(Identify, Layout, Vec<Vec<u16>>), ConfigError>(
                    ConfigError::BoardNameUnavailable,
                ),
                Some(name) => match find_layout(self@.layouts, name, 0) {
                    Some(i) => {
                        let lv = self@.layouts[i];
                        &&& r is Ok <==> keymap_is_grid(lv) && all_keys_known(lv.keymap)
                        &&& r matches Ok(t) ==> t.0 == self.identify && t.1@ == lv
                            && t.2.deep_view() == resolved_keymap(lv.keymap)
                        &&& !keymap_is_grid(lv) ==> r == Err::<
                            (Identify, Layout, Vec<Vec<u16>>),
                            ConfigError,
                        >(ConfigError::GridMismatch { rows: lv.rows, cols: lv.cols })
                        &&& keymap_is_grid(lv) && r is Err ==> (r matches Err(
                            ConfigError::UnknownKeyName { name, reason },
                        ) && reason@ == key_parse_error_text() && exists|a: int, b: int|
                            first_unknown_key(lv.keymap, a, b) && lv.keymap[a][b] == name@)
                    },
                    None => r matches Err(ConfigError::LayoutNotFound(n)) && n@ == name,
                },
            },
    {
        let layout = self.validate(board_name)?.clone();
        layout.check_grid()?;
        let keys = layout.validate()?;
        Ok((self.identify, layout, keys))
    }
}

/// Parses configuration files: the checks made on the file before it is read.
pub struct Parser;

impl Parser {
    /// Creates a new `Parser` instance.
    pub fn new() -> (p: Self)
        ensures
            p == Parser,
    {
        Parser
    }

    /// The checks made before reading the configuration file at `path`: it
    /// must exist (`found`) and must not be read-only.
    pub fn check_access(&self, path: &str, found: bool, readonly: bool) -> (r: Result<(), ConfigError>)
        ensures
            !found ==> (r matches Err(ConfigError::FileNotFound(p)) && p@ == path@),
            found && readonly ==> (r matches Err(ConfigError::PermissionDenied(p)) && p@ == path@),
            found && !readonly ==> r is Ok,
    {
        if !found {
            return Err(ConfigError::FileNotFound(String::from_str(path)));
        }
        if readonly {
            return Err(ConfigError::PermissionDenied(String::from_str(path)));
        }
        Ok(())
    }
}

} // verus!
