use vstd::prelude::*;

use crate::named_map::NamedMap;
use crate::text::{lemma_replaced_skip, replace_all, replaced, starts_with_char, texts};
use crate::values::TravelSpeed;

verus! {

/// Whether `s[from..to]` holds no `c`.
pub open spec fn free_of(s: Seq<char>, from: int, to: int, c: char) -> bool {
    forall|i: int| from <= i < to ==> s[i] != c
}

/// The pattern of a line with a `{placeholder}` before any `;` comment.
pub open spec fn single_placeholder_pattern() -> Seq<char> {
    "^[^;]*\\{(.*)\\}"@
}

/// The pattern of a line with two `{placeholders}` before any `;` comment.
pub open spec fn double_placeholder_pattern() -> Seq<char> {
    "^[^;]*\\{(.*)\\}[^;]*\\{(.*)\\}"@
}

/// `s` matches `^[^;]*\{(.*)\}` with the `{` at `k` and the `}` at `j`: no `;` before `k`, and
/// no newline between the braces.
pub open spec fn braces_at(s: Seq<char>, k: int, j: int) -> bool {
    &&& 0 <= k < j < s.len()
    &&& free_of(s, 0, k, ';')
    &&& s[k] == '{'
    &&& s[j] == '}'
    &&& free_of(s, k + 1, j, '\n')
}

/// After position `j`, `s` goes on with `[^;]*\{(.*)\}`.
pub open spec fn braces_after(s: Seq<char>, j: int) -> bool {
    exists|k2: int, j2: int|
        {
            &&& j < k2 < j2 < s.len()
            &&& free_of(s, j + 1, k2, ';')
            &&& s[k2] == '{'
            &&& s[j2] == '}'
            &&& free_of(s, k2 + 1, j2, '\n')
        }
}

/// `s` matches the single (`two == false`) or double placeholder pattern with the first `{`
/// at `k` and the first `}` at `j`.
pub open spec fn placeholder_match(s: Seq<char>, two: bool, k: int, j: int) -> bool {
    braces_at(s, k, j) && (two ==> braces_after(s, j))
}

/// The match that the pattern's greedy repetitions prefer: the latest `{`, and for it the latest
/// `}`.
pub open spec fn preferred_match(s: Seq<char>, two: bool, k: int, j: int) -> bool {
    &&& placeholder_match(s, two, k, j)
    &&& forall|k2: int, j2: int|
        placeholder_match(s, two, k2, j2) ==> k2 < k || (k2 == k && j2 <= j)
}

/// The text that the pattern's first group captures in `s`, if the pattern matches.
pub open spec fn placeholder_capture(s: Seq<char>, two: bool) -> Option<Seq<char>> {
    if exists|k: int, j: int| placeholder_match(s, two, k, j) {
        let (k, j) = choose|k: int, j: int| preferred_match(s, two, k, j);
        Some(s.subrange(k + 1, j))
    } else {
        None
    }
}

/// Trusted: compiles `pattern` with `regex::Regex::new` (one of the two placeholder patterns,
/// which are valid, so the `unwrap` cannot fail) and returns the text of group 1 of the match that
/// `Regex::captures` finds in `line`. Claimed: by the `regex` crate's documented syntax (`^` the
/// start of the haystack, `[^;]` any character but `;`, `.` any character but a newline, greedy
/// `*` preferring the longest repetition that still lets the whole pattern match), that match is
/// the one `placeholder_capture` describes, and the pattern, anchored at the start, matches at
/// most once.
#[verifier::external_body]
fn regex_capture(pattern: &str, line: &str) -> (r: Option<String>)
    requires
        pattern@ == single_placeholder_pattern() || pattern@ == double_placeholder_pattern(),
    ensures
        r is Some <==> placeholder_capture(line@, pattern@ == double_placeholder_pattern()) is Some,
        r matches Some(c) ==> placeholder_capture(line@, pattern@ == double_placeholder_pattern())
            == Some(c@),
{
    regex::Regex::new(pattern).unwrap().captures(line).map(|c| c[1].to_string())
}

/// Whether `c` stands for itself in a regular expression: it is none of the characters that the
/// `regex` crate's syntax gives a meaning outside a character class (`\ . + * ? ( ) | [ ] { } ^ $`).
pub open spec fn is_literal_char(c: char) -> bool {
    c != '\\' && c != '.' && c != '+' && c != '*' && c != '?' && c != '(' && c != ')' && c != '|'
        && c != '[' && c != ']' && c != '{' && c != '}' && c != '^' && c != '$'
}

/// A text that a regular expression matches literally: no character of it has a meaning.
pub open spec fn literal_text(word: Seq<char>) -> bool {
    forall|i: int| 0 <= i < word.len() ==> is_literal_char(#[trigger] word[i])
}

/// Whether `regex::Regex::new` accepts `pattern` under the `regex` crate's default limits.
pub uninterp spec fn regex_compiles(pattern: Seq<char>) -> bool;

/// Trusted: whether `regex::Regex::new(pattern)` returns `Ok`. Claimed: that is
/// `regex_compiles` of the pattern; it depends on the pattern alone, the limits being the
/// crate's fixed defaults.
#[verifier::external_body]
fn regex_accepts(pattern: &str) -> (r: bool)
    ensures
        r == regex_compiles(pattern@),
{
    regex::Regex::new(pattern).is_ok()
}

/// The longest literal text that `^[^;]*` followed by it is known to compile with: a character
/// takes at most four UTF-8 bytes, and each byte a few compiler states of 32 bytes, so such a
/// pattern stays far below the `regex` crate's default size limit of 10 MiB. Where that limit
/// itself lies depends on the compiler's own accounting, which no documentation states.
pub open spec fn known_small() -> int {
    16384
}

/// The prefix of a pattern that matches anything before a `;` comment, from the start.
pub open spec fn uncommented_prefix() -> Seq<char> {
    "^[^;]*"@
}

/// `word` occurs in `line` before any `;` comment begins.
pub open spec fn uncommented(line: Seq<char>, word: Seq<char>) -> bool {
    exists|i: int|
        0 <= i && i + word.len() <= line.len() && free_of(line, 0, i, ';') && line.subrange(
            i,
            i + word.len(),
        ) == word
}

/// Trusted: compiles `pattern`, which is `^[^;]*` followed by a literal text, with
/// `regex::Regex::new` (valid, and either within `known_small` or accepted by `Regex::new`, so the
/// `unwrap` cannot fail) and asks `Regex::is_match`
/// about `line`. Claimed: by the documented syntax (`^` the start of the haystack, `[^;]*` any run
/// of characters other than `;`, and a character without meaning standing for itself), that is
/// whether the literal text occurs in `line` with no `;` before it.
#[verifier::external_body]
fn regex_is_match(pattern: &str, line: &str) -> (r: bool)
    requires
        pattern@.len() >= uncommented_prefix().len(),
        pattern@.take(uncommented_prefix().len() as int) == uncommented_prefix(),
        literal_text(pattern@.skip(uncommented_prefix().len() as int)),
        pattern@.len() <= uncommented_prefix().len() + known_small() || regex_compiles(pattern@),
    ensures
        r == uncommented(line@, pattern@.skip(uncommented_prefix().len() as int)),
{
    regex::Regex::new(pattern).unwrap().is_match(line)
}

/// Whether some line holds `word` before any comment.
pub open spec fn any_uncommented(lines: Seq<Seq<char>>, word: Seq<char>) -> bool {
    exists|i: int| 0 <= i < lines.len() && uncommented(#[trigger] lines[i], word)
}

/// Whether `^[^;]*` followed by `word` compiles: always where `word` is within `known_small`, and
/// past that as `Regex::new` decides.
pub open spec fn uncommented_compiles(word: Seq<char>) -> bool {
    word.len() <= known_small() || regex_compiles(uncommented_prefix() + word)
}

/// Whether none of `lines` holds `word` before a comment.
pub fn none_uncommented(lines: &Vec<String>, word: &str) -> (r: bool)
    requires
        literal_text(word@),
        uncommented_compiles(word@),
    ensures
        r == !any_uncommented(texts(lines@), word@),
{
    let mut pattern = String::from_str("^[^;]*");
    pattern.append(word);
    proof {
        assert(pattern@.take(uncommented_prefix().len() as int) =~= uncommented_prefix());
        assert(pattern@.skip(uncommented_prefix().len() as int) =~= word@);
    }
    let mut i: usize = 0;
    while i < lines.len()
        invariant
            i <= lines.len(),
            pattern@ == uncommented_prefix() + word@,
            literal_text(word@),
            uncommented_compiles(word@),
            pattern@.take(uncommented_prefix().len() as int) == uncommented_prefix(),
            pattern@.skip(uncommented_prefix().len() as int) == word@,
            forall|k: int| 0 <= k < i ==> !uncommented(#[trigger] texts(lines@)[k], word@),
        decreases lines.len() - i,
    {
        if regex_is_match(pattern.as_str(), lines[i].as_str()) {
            assert(uncommented(texts(lines@)[i as int], word@));
            return false;
        }
        i = i + 1;
    }
    true
}

/// Whether every character of `word` stands for itself in a regular expression.
pub fn is_literal(word: &str) -> (r: bool)
    ensures
        r == literal_text(word@),
{
    let n = word.unicode_len();
    let mut i: usize = 0;
    while i < n
        invariant
            n == word@.len(),
            i <= n,
            forall|k: int| 0 <= k < i ==> is_literal_char(#[trigger] word@[k]),
        decreases n - i,
    {
        let c = word.get_char(i);
        if c == '\\' || c == '.' || c == '+' || c == '*' || c == '?' || c == '(' || c == ')'
            || c == '|' || c == '[' || c == ']' || c == '{' || c == '}' || c == '^' || c == '$' {
            return false;
        }
        i = i + 1;
    }
    true
}

/// `none_uncommented` where `word` is literal and its pattern compiles, else `None`.
pub fn try_none_uncommented(lines: &Vec<String>, word: &str) -> (r: Option<bool>)
    ensures
        r is Some <==> literal_text(word@) && regex_compiles(uncommented_prefix() + word@),
        r matches Some(b) ==> b == !any_uncommented(texts(lines@), word@),
{
    if !is_literal(word) {
        return None;
    }
    let mut pattern = String::from_str("^[^;]*");
    pattern.append(word);
    proof {
        assert(pattern@ =~= uncommented_prefix() + word@);
    }
    if regex_accepts(pattern.as_str()) {
        Some(none_uncommented(lines, word))
    } else {
        None
    }
}

/// The built-in placeholder table: for each Cura placeholder name, `None` where the placeholder
/// has no counterpart (the line is flagged for checking), or the text that replaces it. Where a
/// name occurs twice, the later entry counts.
pub open spec fn placeholder_table() -> Seq<(Seq<char>, Option<Seq<char>>)> {
    seq![
        ("build_volume_temperature"@, None),
        ("cool_fan_enabled"@, None),
        ("cool_fan_speed"@, None),
        ("date"@, None),
        ("day"@, None),
        ("default_material_print_temperature"@, None),
        ("filament_amount"@, None),
        ("filament_cost"@, None),
        ("fill_distance"@, None),
        ("infill_pattern"@, None),
        ("infill_sparse_density"@, None),
        ("initial_extruder_nr"@, None),
        ("jobname"@, None),
        ("layer_height"@, Some("{height}"@)),
        ("layer_height_0"@, Some("{height}"@)),
        ("machine_depth"@, None),
        ("machine_height"@, Some("{z_max}"@)),
        ("machine_name"@, None),
        ("machine_width"@, Some("{right}"@)),
        ("machine_depth"@, Some("{bottom}"@)),
        ("material_bed_temperature"@, Some("{bed_temp}"@)),
        ("material_bed_temperature_layer_0"@, Some("{bed_temp}"@)),
        ("material_brand"@, None),
        ("material_flow"@, None),
        ("material_guid"@, None),
        ("material_id"@, None),
        ("material_name"@, None),
        ("material_initial_print_temperature"@, Some("{temp}"@)),
        ("material_print_temperature"@, Some("{temp}"@)),
        ("material_print_temperature, 0"@, Some("{temp}"@)),
        ("material_print_temperature, 1"@, Some("{temp}"@)),
        ("material_print_temperature_layer_0"@, Some("{temp}"@)),
        ("material_print_temperature_layer_0, initial_extruder_nr"@, None),
        ("material_profile"@, None),
        ("material_standby_temperature"@, None),
        ("material_standby_temperature, 0"@, None),
        ("material_standby_temperature, 1"@, None),
        ("print_bed_temperature"@, Some("{bed_temp}"@)),
        ("print_speed"@, None),
        ("print_temperature"@, Some("{temp}"@)),
        ("profile_string"@, None),
        ("retraction_amount"@, None),
        ("retraction_retract_speed"@, None),
        ("retraction_speed"@, None),
        ("speed_print"@, None),
        ("speed_topbottom"@, None),
        ("speed_travel"@, None),
        ("speed_travel_layer_0"@, None),
        ("support"@, None),
        ("support_enable"@, None),
        ("switch_extruder_retraction_amount"@, None),
        ("top_bottom_thickness"@, None),
        ("travel_speed"@, None),
        ("travel_xy_speed"@, None),
        ("wall_thickness"@, None),
    ]
}

/// The names of the travel-speed placeholders, which the printer's travel speed fills in.
pub open spec fn speed_placeholders() -> Seq<Seq<char>> {
    seq!["speed_travel"@, "speed_travel_layer_0"@, "travel_speed"@, "travel_xy_speed"@]
}

/// The placeholder table of a printer: the built-in one, followed, where the printer has a travel
/// speed, by the travel-speed placeholders bound to its text.
pub open spec fn placeholder_bindings(speed: Option<Seq<char>>) -> Seq<(Seq<char>, Option<Seq<char>>)> {
    match speed {
        Some(t) => placeholder_table() + speed_placeholders().map_values(
            |k: Seq<char>| (k, Some(t)),
        ),
        None => placeholder_table(),
    }
}

/// The binding of `key` in `bindings`: that of its last entry, if it has one.
pub open spec fn last_binding(bindings: Seq<(Seq<char>, Option<Seq<char>>)>, key: Seq<char>) -> Option<Option<Seq<char>>>
    decreases bindings.len(),
{
    if bindings.len() == 0 {
        None
    } else if bindings.last().0 == key {
        Some(bindings.last().1)
    } else {
        last_binding(bindings.drop_last(), key)
    }
}

/// The text of an optional string.
pub open spec fn opt_text(o: Option<String>) -> Option<Seq<char>> {
    match o {
        Some(s) => Some(s@),
        None => None,
    }
}

/// The map built from `bindings` holds, for each name, the binding that `last_binding` gives.
pub open spec fn map_holds(m: NamedMap<Option<String>>, bindings: Seq<(Seq<char>, Option<Seq<char>>)>) -> bool {
    forall|k: Seq<char>|
        #![trigger m.has(k)]
        (m.has(k) <==> last_binding(bindings, k) is Some) && (m.has(k) ==> Some(opt_text(m.at(k)))
            == last_binding(bindings, k))
}

/// The names and optional texts of a list of bindings.
pub open spec fn binding_views(v: Seq<(String, Option<String>)>) -> Seq<(Seq<char>, Option<Seq<char>>)> {
    v.map_values(|e: (String, Option<String>)| (e.0@, opt_text(e.1)))
}

/// The text of an optional string slice.
pub open spec fn opt_str(o: Option<&str>) -> Option<Seq<char>> {
    match o {
        Some(t) => Some(t@),
        None => None,
    }
}

fn push_binding(v: &mut Vec<(String, Option<String>)>, key: &str, value: Option<&str>)
    ensures
        binding_views(final(v)@) == binding_views(old(v)@).push((key@, opt_str(value))),
{
    let text = match value {
        Some(t) => Some(String::from_str(t)),
        None => None,
    };
    v.push((String::from_str(key), text));
    assert(binding_views(v@) =~= binding_views(old(v)@).push((key@, opt_str(value))));
}

/// The bindings of the placeholder table of a printer whose travel speed is `speed`.
fn binding_list(speed: &Option<TravelSpeed>) -> (v: Vec<(String, Option<String>)>)
    ensures
        binding_views(v@) == placeholder_bindings(speed_text(*speed)),
{
    let mut t: Vec<(String, Option<String>)> = Vec::new();
    assert(binding_views(t@) =~= Seq::<(Seq<char>, Option<Seq<char>>)>::empty());
    push_binding(&mut t, "build_volume_temperature", None);
    push_binding(&mut t, "cool_fan_enabled", None);
    push_binding(&mut t, "cool_fan_speed", None);
    push_binding(&mut t, "date", None);
    push_binding(&mut t, "day", None);
    push_binding(&mut t, "default_material_print_temperature", None);
    push_binding(&mut t, "filament_amount", None);
    push_binding(&mut t, "filament_cost", None);
    push_binding(&mut t, "fill_distance", None);
    push_binding(&mut t, "infill_pattern", None);
    push_binding(&mut t, "infill_sparse_density", None);
    push_binding(&mut t, "initial_extruder_nr", None);
    push_binding(&mut t, "jobname", None);
    push_binding(&mut t, "layer_height", Some("{height}"));
    push_binding(&mut t, "layer_height_0", Some("{height}"));
    push_binding(&mut t, "machine_depth", None);
    push_binding(&mut t, "machine_height", Some("{z_max}"));
    push_binding(&mut t, "machine_name", None);
    push_binding(&mut t, "machine_width", Some("{right}"));
    push_binding(&mut t, "machine_depth", Some("{bottom}"));
    push_binding(&mut t, "material_bed_temperature", Some("{bed_temp}"));
    push_binding(&mut t, "material_bed_temperature_layer_0", Some("{bed_temp}"));
    push_binding(&mut t, "material_brand", None);
    push_binding(&mut t, "material_flow", None);
    push_binding(&mut t, "material_guid", None);
    push_binding(&mut t, "material_id", None);
    push_binding(&mut t, "material_name", None);
    push_binding(&mut t, "material_initial_print_temperature", Some("{temp}"));
    push_binding(&mut t, "material_print_temperature", Some("{temp}"));
    push_binding(&mut t, "material_print_temperature, 0", Some("{temp}"));
    push_binding(&mut t, "material_print_temperature, 1", Some("{temp}"));
    push_binding(&mut t, "material_print_temperature_layer_0", Some("{temp}"));
    push_binding(&mut t, "material_print_temperature_layer_0, initial_extruder_nr", None);
    push_binding(&mut t, "material_profile", None);
    push_binding(&mut t, "material_standby_temperature", None);
    push_binding(&mut t, "material_standby_temperature, 0", None);
    push_binding(&mut t, "material_standby_temperature, 1", None);
    push_binding(&mut t, "print_bed_temperature", Some("{bed_temp}"));
    push_binding(&mut t, "print_speed", None);
    push_binding(&mut t, "print_temperature", Some("{temp}"));
    push_binding(&mut t, "profile_string", None);
    push_binding(&mut t, "retraction_amount", None);
    push_binding(&mut t, "retraction_retract_speed", None);
    push_binding(&mut t, "retraction_speed", None);
    push_binding(&mut t, "speed_print", None);
    push_binding(&mut t, "speed_topbottom", None);
    push_binding(&mut t, "speed_travel", None);
    push_binding(&mut t, "speed_travel_layer_0", None);
    push_binding(&mut t, "support", None);
    push_binding(&mut t, "support_enable", None);
    push_binding(&mut t, "switch_extruder_retraction_amount", None);
    push_binding(&mut t, "top_bottom_thickness", None);
    push_binding(&mut t, "travel_speed", None);
    push_binding(&mut t, "travel_xy_speed", None);
    push_binding(&mut t, "wall_thickness", None);
    assert(binding_views(t@) =~= placeholder_table());
    if let Some(s) = speed {
        let text = s.text.as_str();
        push_binding(&mut t, "speed_travel", Some(text));
        push_binding(&mut t, "speed_travel_layer_0", Some(text));
        push_binding(&mut t, "travel_speed", Some(text));
        push_binding(&mut t, "travel_xy_speed", Some(text));
        assert(binding_views(t@) =~= placeholder_bindings(speed_text(*speed)));
    }
    t
}

/// The placeholder map of a printer whose travel speed is `speed`: the built-in table, followed,
/// where the printer has a travel speed, by the travel-speed placeholders bound to its text,
/// each name bound as its last entry binds it.
pub fn placeholder_map(speed: &Option<TravelSpeed>) -> (m: NamedMap<Option<String>>)
    ensures
        map_holds(m, placeholder_bindings(speed_text(*speed))),
{
    let list = binding_list(speed);
    let ghost all = binding_views(list@);
    let mut m: NamedMap<Option<String>> = NamedMap::new();
    let mut i: usize = 0;
    while i < list.len()
        invariant
            i <= list.len(),
            all == binding_views(list@),
            map_holds(m, all.take(i as int)),
        decreases list.len() - i,
    {
        let k = list[i].0.clone();
        let v = list[i].1.clone();
        let ghost before = m;
        m.insert(k, v);
        proof {
            assert(all.take(i + 1).drop_last() =~= all.take(i as int));
            assert(all.take(i + 1).last() == all[i as int]);
            assert forall|q: Seq<char>| #![trigger m.has(q)] (m.has(q) <==> last_binding(all.take(i + 1), q) is Some)
                && (m.has(q) ==> Some(opt_text(m.at(q))) == last_binding(all.take(i + 1), q)) by {
                assert(m.as_map().dom().contains(q) == m.has(q));
                assert(before.as_map().dom().contains(q) == before.has(q));
                if m.has(q) {
                    assert(m.as_map()[q] == m.at(q));
                }
                if before.has(q) {
                    assert(before.as_map()[q] == before.at(q));
                }
            }
        }
        i = i + 1;
    }
    assert(all.take(list.len() as int) =~= all);
    m
}

/// The text of a travel speed, if there is one.
pub open spec fn speed_text(speed: Option<TravelSpeed>) -> Option<Seq<char>> {
    match speed {
        Some(s) => Some(s.text@),
        None => None,
    }
}


/// The text put before a line whose placeholder has no counterpart.
pub open spec fn check_prefix() -> Seq<char> {
    "; PLEASE CHECK: "@
}

/// `{name}`.
pub open spec fn braced(name: Seq<char>) -> Seq<char> {
    "{"@ + name + "}"@
}

/// One pattern's pass over a line: where the pattern captures a placeholder name that the
/// bindings know, a name bound to `None` flags the line for checking and a name bound to a text
/// has every `{name}` in the line replaced by that text; otherwise the line stays.
pub open spec fn apply_capture(
    line: Seq<char>,
    two: bool,
    bindings: Seq<(Seq<char>, Option<Seq<char>>)>,
) -> Seq<char> {
    match placeholder_capture(line, two) {
        None => line,
        Some(m) => match last_binding(bindings, m) {
            None => line,
            Some(None) => check_prefix() + line,
            Some(Some(r)) => replaced(line, braced(m), r),
        },
    }
}

/// A G-code line with its placeholders resolved: a comment line (one that begins with `;`) stays;
/// any other goes through the single-placeholder pass, then the double-placeholder pass.
pub open spec fn pruned_line(line: Seq<char>, bindings: Seq<(Seq<char>, Option<Seq<char>>)>) -> Seq<
    char,
> {
    if line.len() > 0 && line[0] == ';' {
        line
    } else {
        apply_capture(apply_capture(line, false, bindings), true, bindings)
    }
}

/// G-code lines with their placeholders resolved, line by line.
pub open spec fn pruned(
    lines: Seq<Seq<char>>,
    bindings: Seq<(Seq<char>, Option<Seq<char>>)>,
) -> Seq<Seq<char>> {
    lines.map_values(|l: Seq<char>| pruned_line(l, bindings))
}

fn apply_one(
    line: &str,
    pattern: &str,
    xref: &NamedMap<Option<String>>,
    Ghost(bindings): Ghost<Seq<(Seq<char>, Option<Seq<char>>)>>,
) -> (r: String)
    requires
        pattern@ == single_placeholder_pattern() || pattern@ == double_placeholder_pattern(),
        map_holds(*xref, bindings),
    ensures
        r@ == apply_capture(line@, pattern@ == double_placeholder_pattern(), bindings),
{
    match regex_capture(pattern, line) {
        None => line.to_owned(),
        Some(m) => {
            assert(xref.has(m@) <==> last_binding(bindings, m@) is Some);
            match xref.get(m.as_str()) {
                None => line.to_owned(),
                Some(None) => {
                    let mut flagged = String::from_str("; PLEASE CHECK: ");
                    flagged.append(line);
                    flagged
                },
                Some(Some(r)) => {
                    proof {
                        reveal_strlit("{");
                    }
                    let mut pat = String::from_str("{");
                    pat.append(m.as_str());
                    pat.append("}");
                    replace_all(line, pat.as_str(), r.as_str())
                },
            }
        },
    }
}

/// Resolves the placeholders of `gcode` by the placeholder map `xref` (which holds `bindings`).
pub(crate) fn prune(
    gcode: &mut Vec<String>,
    xref: &NamedMap<Option<String>>,
    Ghost(bindings): Ghost<Seq<(Seq<char>, Option<Seq<char>>)>>,
)
    requires
        map_holds(*xref, bindings),
    ensures
        texts(final(gcode)@) == pruned(texts(old(gcode)@), bindings),
{
    proof {
        reveal_strlit("^[^;]*\\{(.*)\\}");
        reveal_strlit("^[^;]*\\{(.*)\\}[^;]*\\{(.*)\\}");
        assert(single_placeholder_pattern().len() != double_placeholder_pattern().len());
    }
    let ghost start = texts(gcode@);
    let mut i: usize = 0;
    while i < gcode.len()
        invariant
            i <= gcode.len(),
            gcode@.len() == start.len(),
            map_holds(*xref, bindings),
            single_placeholder_pattern() != double_placeholder_pattern(),
            forall|j: int| 0 <= j < i ==> texts(gcode@)[j] == pruned_line(start[j], bindings),
            forall|j: int| i <= j < gcode@.len() ==> texts(gcode@)[j] == start[j],
        decreases gcode.len() - i,
    {
        let ghost before = gcode@;
        if !starts_with_char(gcode[i].as_str(), ';') {
            let first = apply_one(gcode[i].as_str(), "^[^;]*\\{(.*)\\}", xref, Ghost(bindings));
            let both = apply_one(
                first.as_str(),
                "^[^;]*\\{(.*)\\}[^;]*\\{(.*)\\}",
                xref,
                Ghost(bindings),
            );
            gcode.set(i, both);
            assert forall|j: int| 0 <= j < gcode@.len() && j != i implies texts(gcode@)[j] == texts(
                before,
            )[j] by {
                assert(gcode@[j] == before[j]);
            }
        }
        assert(texts(gcode@)[i as int] == pruned_line(start[i as int], bindings));
        assert forall|j: int| 0 <= j < i + 1 implies texts(gcode@)[j] == pruned_line(
            start[j],
            bindings,
        ) by {
            if j < i {
                assert(texts(before)[j] == pruned_line(start[j], bindings));
            }
        }
        i = i + 1;
    }
    assert(texts(gcode@) =~= pruned(start, bindings));
}

/// The binding of `key` is that of entry `i` where no later entry names `key`.
proof fn lemma_last_binding_at(bindings: Seq<(Seq<char>, Option<Seq<char>>)>, key: Seq<char>, i: int)
    requires
        0 <= i < bindings.len(),
        bindings[i].0 == key,
        forall|j: int| i < j < bindings.len() ==> bindings[j].0 != key,
    ensures
        last_binding(bindings, key) == Some(bindings[i].1),
    decreases bindings.len(),
{
    if i < bindings.len() - 1 {
        lemma_last_binding_at(bindings.drop_last(), key, i);
    }
}

/// A name that the built-in table names last at entry `i`, and that is no travel-speed
/// placeholder, is bound as that entry binds it, whatever the travel speed.
proof fn lemma_table_binding(speed: Option<Seq<char>>, key: Seq<char>, i: int)
    requires
        0 <= i < placeholder_table().len(),
        placeholder_table()[i].0 == key,
        forall|j: int| i < j < placeholder_table().len() ==> placeholder_table()[j].0 != key,
        forall|m: int| 0 <= m < speed_placeholders().len() ==> speed_placeholders()[m] != key,
    ensures
        last_binding(placeholder_bindings(speed), key) == Some(placeholder_table()[i].1),
{
    let t = placeholder_table();
    let bs = placeholder_bindings(speed);
    assert forall|j: int| i < j < bs.len() implies bs[j].0 != key by {
        if j >= t.len() {
            assert(bs[j].0 == speed_placeholders()[j - t.len()]);
        }
    }
    lemma_last_binding_at(bs, key, i);
}

/// The travel-speed placeholder `m`, which the built-in table names last at entry `i` with no
/// counterpart, is bound to the travel speed where there is one, and flags its line where there is
/// none.
proof fn lemma_speed_binding(speed: Option<Seq<char>>, key: Seq<char>, i: int, m: int)
    requires
        0 <= i < placeholder_table().len(),
        placeholder_table()[i] == (key, None::<Seq<char>>),
        forall|j: int| i < j < placeholder_table().len() ==> placeholder_table()[j].0 != key,
        0 <= m < speed_placeholders().len(),
        speed_placeholders()[m] == key,
        forall|n: int| m < n < speed_placeholders().len() ==> speed_placeholders()[n] != key,
    ensures
        last_binding(placeholder_bindings(speed), key) == Some(speed),
{
    let t = placeholder_table();
    let bs = placeholder_bindings(speed);
    if speed is Some {
        let k = t.len() + m;
        assert(bs[k] == (key, speed));
        assert forall|j: int| k < j < bs.len() implies bs[j].0 != key by {
            assert(bs[j].0 == speed_placeholders()[j - t.len()]);
        }
        lemma_last_binding_at(bs, key, k);
    } else {
        lemma_last_binding_at(t, key, i);
    }
}

/// What the placeholders mean, whatever the printer's travel speed: every print-temperature
/// placeholder stands for the nozzle temperature `{temp}` and every bed-temperature one for
/// `{bed_temp}`; the layer heights for `{height}`; the machine's height, width and depth for
/// `{z_max}`, `{right}` and `{bottom}`; the other temperatures (chamber, standby, default, that
/// of the initial extruder) have no counterpart and flag their line; the travel-speed ones take the
/// travel speed where there is one and flag their line where there is none; and no placeholder is
/// replaced by anything but these.
pub proof fn lemma_placeholder_meanings(speed: Option<Seq<char>>)
    ensures
        last_binding(placeholder_bindings(speed), "material_print_temperature"@) == Some(Some("{temp}"@)),
        last_binding(placeholder_bindings(speed), "material_print_temperature, 0"@) == Some(Some("{temp}"@)),
        last_binding(placeholder_bindings(speed), "material_print_temperature, 1"@) == Some(Some("{temp}"@)),
        last_binding(placeholder_bindings(speed), "material_print_temperature_layer_0"@) == Some(Some("{temp}"@)),
        last_binding(placeholder_bindings(speed), "material_initial_print_temperature"@) == Some(Some("{temp}"@)),
        last_binding(placeholder_bindings(speed), "print_temperature"@) == Some(Some("{temp}"@)),
        last_binding(placeholder_bindings(speed), "material_bed_temperature"@) == Some(Some("{bed_temp}"@)),
        last_binding(placeholder_bindings(speed), "material_bed_temperature_layer_0"@) == Some(Some("{bed_temp}"@)),
        last_binding(placeholder_bindings(speed), "print_bed_temperature"@) == Some(Some("{bed_temp}"@)),
        last_binding(placeholder_bindings(speed), "layer_height"@) == Some(Some("{height}"@)),
        last_binding(placeholder_bindings(speed), "layer_height_0"@) == Some(Some("{height}"@)),
        last_binding(placeholder_bindings(speed), "machine_height"@) == Some(Some("{z_max}"@)),
        last_binding(placeholder_bindings(speed), "machine_width"@) == Some(Some("{right}"@)),
        last_binding(placeholder_bindings(speed), "machine_depth"@) == Some(Some("{bottom}"@)),
        last_binding(placeholder_bindings(speed), "build_volume_temperature"@) == Some(None::<Seq<char>>),
        last_binding(placeholder_bindings(speed), "default_material_print_temperature"@) == Some(None::<Seq<char>>),
        last_binding(placeholder_bindings(speed), "material_print_temperature_layer_0, initial_extruder_nr"@) == Some(None::<Seq<char>>),
        last_binding(placeholder_bindings(speed), "material_standby_temperature"@) == Some(None::<Seq<char>>),
        last_binding(placeholder_bindings(speed), "material_standby_temperature, 0"@) == Some(None::<Seq<char>>),
        last_binding(placeholder_bindings(speed), "material_standby_temperature, 1"@) == Some(None::<Seq<char>>),
        last_binding(placeholder_bindings(speed), "speed_travel"@) == Some(speed),
        last_binding(placeholder_bindings(speed), "speed_travel_layer_0"@) == Some(speed),
        last_binding(placeholder_bindings(speed), "travel_speed"@) == Some(speed),
        last_binding(placeholder_bindings(speed), "travel_xy_speed"@) == Some(speed),
        forall|j: int|
            0 <= j < placeholder_bindings(speed).len() ==> ((#[trigger] placeholder_bindings(
                speed,
            )[j]).1 matches Some(v) ==> v == "{temp}"@ || v == "{bed_temp}"@ || v == "{height}"@ || v == "{z_max}"@ || v == "{right}"@ || v == "{bottom}"@
                || speed == Some(v)),
{
    let t = placeholder_table();
    let sp = speed_placeholders();
    reveal_strlit("build_volume_temperature");
    reveal_strlit("cool_fan_enabled");
    reveal_strlit("cool_fan_speed");
    reveal_strlit("date");
    reveal_strlit("day");
    reveal_strlit("default_material_print_temperature");
    reveal_strlit("filament_amount");
    reveal_strlit("filament_cost");
    reveal_strlit("fill_distance");
    reveal_strlit("infill_pattern");
    reveal_strlit("infill_sparse_density");
    reveal_strlit("initial_extruder_nr");
    reveal_strlit("jobname");
    reveal_strlit("layer_height");
    reveal_strlit("layer_height_0");
    reveal_strlit("machine_depth");
    reveal_strlit("machine_height");
    reveal_strlit("machine_name");
    reveal_strlit("machine_width");
    reveal_strlit("material_bed_temperature");
    reveal_strlit("material_bed_temperature_layer_0");
    reveal_strlit("material_brand");
    reveal_strlit("material_flow");
    reveal_strlit("material_guid");
    reveal_strlit("material_id");
    reveal_strlit("material_name");
    reveal_strlit("material_initial_print_temperature");
    reveal_strlit("material_print_temperature");
    reveal_strlit("material_print_temperature, 0");
    reveal_strlit("material_print_temperature, 1");
    reveal_strlit("material_print_temperature_layer_0");
    reveal_strlit("material_print_temperature_layer_0, initial_extruder_nr");
    reveal_strlit("material_profile");
    reveal_strlit("material_standby_temperature");
    reveal_strlit("material_standby_temperature, 0");
    reveal_strlit("material_standby_temperature, 1");
    reveal_strlit("print_bed_temperature");
    reveal_strlit("print_speed");
    reveal_strlit("print_temperature");
    reveal_strlit("profile_string");
    reveal_strlit("retraction_amount");
    reveal_strlit("retraction_retract_speed");
    reveal_strlit("retraction_speed");
    reveal_strlit("speed_print");
    reveal_strlit("speed_topbottom");
    reveal_strlit("speed_travel");
    reveal_strlit("speed_travel_layer_0");
    reveal_strlit("support");
    reveal_strlit("support_enable");
    reveal_strlit("switch_extruder_retraction_amount");
    reveal_strlit("top_bottom_thickness");
    reveal_strlit("travel_speed");
    reveal_strlit("travel_xy_speed");
    reveal_strlit("wall_thickness");
    reveal_strlit("{temp}");
    reveal_strlit("{bed_temp}");
    reveal_strlit("{height}");
    reveal_strlit("{z_max}");
    reveal_strlit("{right}");
    reveal_strlit("{bottom}");
    assert(last_binding(placeholder_bindings(speed), "material_print_temperature"@) == Some(Some("{temp}"@))) by {
        assert(t[29].0.len() != 26 && t[30].0.len() != 26 && t[31].0.len() != 26
            && t[32].0.len() != 26 && t[33].0.len() != 26 && t[34].0.len() != 26
            && t[35].0.len() != 26 && t[36].0.len() != 26 && t[37].0.len() != 26
            && t[38].0.len() != 26 && t[39].0.len() != 26 && t[40].0.len() != 26
            && t[41].0.len() != 26 && t[42].0.len() != 26 && t[43].0.len() != 26
            && t[44].0.len() != 26 && t[45].0.len() != 26 && t[46].0.len() != 26
            && t[47].0.len() != 26 && t[48].0.len() != 26 && t[49].0.len() != 26
            && t[50].0.len() != 26 && t[51].0.len() != 26 && t[52].0.len() != 26
            && t[53].0.len() != 26 && t[54].0.len() != 26 && sp[0].len() != 26
            && sp[1].len() != 26 && sp[2].len() != 26 && sp[3].len() != 26);
        lemma_table_binding(speed, "material_print_temperature"@, 28);
    }
    assert(last_binding(placeholder_bindings(speed), "material_print_temperature, 0"@) == Some(Some("{temp}"@))) by {
        assert(t[30].0[28] != '0' && t[31].0.len() != 29 && t[32].0.len() != 29
            && t[33].0.len() != 29 && t[34].0.len() != 29 && t[35].0.len() != 29
            && t[36].0.len() != 29 && t[37].0.len() != 29 && t[38].0.len() != 29
            && t[39].0.len() != 29 && t[40].0.len() != 29 && t[41].0.len() != 29
            && t[42].0.len() != 29 && t[43].0.len() != 29 && t[44].0.len() != 29
            && t[45].0.len() != 29 && t[46].0.len() != 29 && t[47].0.len() != 29
            && t[48].0.len() != 29 && t[49].0.len() != 29 && t[50].0.len() != 29
            && t[51].0.len() != 29 && t[52].0.len() != 29 && t[53].0.len() != 29
            && t[54].0.len() != 29 && sp[0].len() != 29 && sp[1].len() != 29 && sp[2].len() != 29
            && sp[3].len() != 29);
        lemma_table_binding(speed, "material_print_temperature, 0"@, 29);
    }
    assert(last_binding(placeholder_bindings(speed), "material_print_temperature, 1"@) == Some(Some("{temp}"@))) by {
        assert(t[31].0.len() != 29 && t[32].0.len() != 29 && t[33].0.len() != 29
            && t[34].0.len() != 29 && t[35].0.len() != 29 && t[36].0.len() != 29
            && t[37].0.len() != 29 && t[38].0.len() != 29 && t[39].0.len() != 29
            && t[40].0.len() != 29 && t[41].0.len() != 29 && t[42].0.len() != 29
            && t[43].0.len() != 29 && t[44].0.len() != 29 && t[45].0.len() != 29
            && t[46].0.len() != 29 && t[47].0.len() != 29 && t[48].0.len() != 29
            && t[49].0.len() != 29 && t[50].0.len() != 29 && t[51].0.len() != 29
            && t[52].0.len() != 29 && t[53].0.len() != 29 && t[54].0.len() != 29
            && sp[0].len() != 29 && sp[1].len() != 29 && sp[2].len() != 29 && sp[3].len() != 29);
        lemma_table_binding(speed, "material_print_temperature, 1"@, 30);
    }
    assert(last_binding(placeholder_bindings(speed), "material_print_temperature_layer_0"@) == Some(Some("{temp}"@))) by {
        assert(t[32].0.len() != 34 && t[33].0.len() != 34 && t[34].0.len() != 34
            && t[35].0.len() != 34 && t[36].0.len() != 34 && t[37].0.len() != 34
            && t[38].0.len() != 34 && t[39].0.len() != 34 && t[40].0.len() != 34
            && t[41].0.len() != 34 && t[42].0.len() != 34 && t[43].0.len() != 34
            && t[44].0.len() != 34 && t[45].0.len() != 34 && t[46].0.len() != 34
            && t[47].0.len() != 34 && t[48].0.len() != 34 && t[49].0.len() != 34
            && t[50].0.len() != 34 && t[51].0.len() != 34 && t[52].0.len() != 34
            && t[53].0.len() != 34 && t[54].0.len() != 34 && sp[0].len() != 34
            && sp[1].len() != 34 && sp[2].len() != 34 && sp[3].len() != 34);
        lemma_table_binding(speed, "material_print_temperature_layer_0"@, 31);
    }
    assert(last_binding(placeholder_bindings(speed), "material_initial_print_temperature"@) == Some(Some("{temp}"@))) by {
        assert(t[28].0.len() != 34 && t[29].0.len() != 34 && t[30].0.len() != 34
            && t[31].0[9] != 'i' && t[32].0.len() != 34 && t[33].0.len() != 34
            && t[34].0.len() != 34 && t[35].0.len() != 34 && t[36].0.len() != 34
            && t[37].0.len() != 34 && t[38].0.len() != 34 && t[39].0.len() != 34
            && t[40].0.len() != 34 && t[41].0.len() != 34 && t[42].0.len() != 34
            && t[43].0.len() != 34 && t[44].0.len() != 34 && t[45].0.len() != 34
            && t[46].0.len() != 34 && t[47].0.len() != 34 && t[48].0.len() != 34
            && t[49].0.len() != 34 && t[50].0.len() != 34 && t[51].0.len() != 34
            && t[52].0.len() != 34 && t[53].0.len() != 34 && t[54].0.len() != 34
            && sp[0].len() != 34 && sp[1].len() != 34 && sp[2].len() != 34 && sp[3].len() != 34);
        lemma_table_binding(speed, "material_initial_print_temperature"@, 27);
    }
    assert(last_binding(placeholder_bindings(speed), "print_temperature"@) == Some(Some("{temp}"@))) by {
        assert(t[40].0.len() != 17 && t[41].0[0] != 'p' && t[42].0.len() != 17
            && t[43].0.len() != 17 && t[44].0.len() != 17 && t[45].0.len() != 17
            && t[46].0.len() != 17 && t[47].0.len() != 17 && t[48].0.len() != 17
            && t[49].0.len() != 17 && t[50].0.len() != 17 && t[51].0.len() != 17
            && t[52].0.len() != 17 && t[53].0.len() != 17 && t[54].0.len() != 17
            && sp[0].len() != 17 && sp[1].len() != 17 && sp[2].len() != 17 && sp[3].len() != 17);
        lemma_table_binding(speed, "print_temperature"@, 39);
    }
    assert(last_binding(placeholder_bindings(speed), "material_bed_temperature"@) == Some(Some("{bed_temp}"@))) by {
        assert(t[21].0.len() != 24 && t[22].0.len() != 24 && t[23].0.len() != 24
            && t[24].0.len() != 24 && t[25].0.len() != 24 && t[26].0.len() != 24
            && t[27].0.len() != 24 && t[28].0.len() != 24 && t[29].0.len() != 24
            && t[30].0.len() != 24 && t[31].0.len() != 24 && t[32].0.len() != 24
            && t[33].0.len() != 24 && t[34].0.len() != 24 && t[35].0.len() != 24
            && t[36].0.len() != 24 && t[37].0.len() != 24 && t[38].0.len() != 24
            && t[39].0.len() != 24 && t[40].0.len() != 24 && t[41].0.len() != 24
            && t[42].0[0] != 'm' && t[43].0.len() != 24 && t[44].0.len() != 24
            && t[45].0.len() != 24 && t[46].0.len() != 24 && t[47].0.len() != 24
            && t[48].0.len() != 24 && t[49].0.len() != 24 && t[50].0.len() != 24
            && t[51].0.len() != 24 && t[52].0.len() != 24 && t[53].0.len() != 24
            && t[54].0.len() != 24 && sp[0].len() != 24 && sp[1].len() != 24 && sp[2].len() != 24
            && sp[3].len() != 24);
        lemma_table_binding(speed, "material_bed_temperature"@, 20);
    }
    assert(last_binding(placeholder_bindings(speed), "material_bed_temperature_layer_0"@) == Some(Some("{bed_temp}"@))) by {
        assert(t[22].0.len() != 32 && t[23].0.len() != 32 && t[24].0.len() != 32
            && t[25].0.len() != 32 && t[26].0.len() != 32 && t[27].0.len() != 32
            && t[28].0.len() != 32 && t[29].0.len() != 32 && t[30].0.len() != 32
            && t[31].0.len() != 32 && t[32].0.len() != 32 && t[33].0.len() != 32
            && t[34].0.len() != 32 && t[35].0.len() != 32 && t[36].0.len() != 32
            && t[37].0.len() != 32 && t[38].0.len() != 32 && t[39].0.len() != 32
            && t[40].0.len() != 32 && t[41].0.len() != 32 && t[42].0.len() != 32
            && t[43].0.len() != 32 && t[44].0.len() != 32 && t[45].0.len() != 32
            && t[46].0.len() != 32 && t[47].0.len() != 32 && t[48].0.len() != 32
            && t[49].0.len() != 32 && t[50].0.len() != 32 && t[51].0.len() != 32
            && t[52].0.len() != 32 && t[53].0.len() != 32 && t[54].0.len() != 32
            && sp[0].len() != 32 && sp[1].len() != 32 && sp[2].len() != 32 && sp[3].len() != 32);
        lemma_table_binding(speed, "material_bed_temperature_layer_0"@, 21);
    }
    assert(last_binding(placeholder_bindings(speed), "print_bed_temperature"@) == Some(Some("{bed_temp}"@))) by {
        assert(t[38].0.len() != 21 && t[39].0.len() != 21 && t[40].0.len() != 21
            && t[41].0.len() != 21 && t[42].0.len() != 21 && t[43].0.len() != 21
            && t[44].0.len() != 21 && t[45].0.len() != 21 && t[46].0.len() != 21
            && t[47].0.len() != 21 && t[48].0.len() != 21 && t[49].0.len() != 21
            && t[50].0.len() != 21 && t[51].0.len() != 21 && t[52].0.len() != 21
            && t[53].0.len() != 21 && t[54].0.len() != 21 && sp[0].len() != 21
            && sp[1].len() != 21 && sp[2].len() != 21 && sp[3].len() != 21);
        lemma_table_binding(speed, "print_bed_temperature"@, 37);
    }
    assert(last_binding(placeholder_bindings(speed), "layer_height"@) == Some(Some("{height}"@))) by {
        assert(t[14].0.len() != 12 && t[15].0.len() != 12 && t[16].0.len() != 12
            && t[17].0[0] != 'l' && t[18].0.len() != 12 && t[19].0.len() != 12
            && t[20].0.len() != 12 && t[21].0.len() != 12 && t[22].0.len() != 12
            && t[23].0.len() != 12 && t[24].0.len() != 12 && t[25].0.len() != 12
            && t[26].0.len() != 12 && t[27].0.len() != 12 && t[28].0.len() != 12
            && t[29].0.len() != 12 && t[30].0.len() != 12 && t[31].0.len() != 12
            && t[32].0.len() != 12 && t[33].0.len() != 12 && t[34].0.len() != 12
            && t[35].0.len() != 12 && t[36].0.len() != 12 && t[37].0.len() != 12
            && t[38].0.len() != 12 && t[39].0.len() != 12 && t[40].0.len() != 12
            && t[41].0.len() != 12 && t[42].0.len() != 12 && t[43].0.len() != 12
            && t[44].0.len() != 12 && t[45].0.len() != 12 && t[46].0[0] != 'l'
            && t[47].0.len() != 12 && t[48].0.len() != 12 && t[49].0.len() != 12
            && t[50].0.len() != 12 && t[51].0.len() != 12 && t[52].0[0] != 'l'
            && t[53].0.len() != 12 && t[54].0.len() != 12 && sp[0][0] != 'l' && sp[1].len() != 12
            && sp[2][0] != 'l' && sp[3].len() != 12);
        lemma_table_binding(speed, "layer_height"@, 13);
    }
    assert(last_binding(placeholder_bindings(speed), "layer_height_0"@) == Some(Some("{height}"@))) by {
        assert(t[15].0.len() != 14 && t[16].0[0] != 'l' && t[17].0.len() != 14
            && t[18].0.len() != 14 && t[19].0.len() != 14 && t[20].0.len() != 14
            && t[21].0.len() != 14 && t[22].0[0] != 'l' && t[23].0.len() != 14
            && t[24].0.len() != 14 && t[25].0.len() != 14 && t[26].0.len() != 14
            && t[27].0.len() != 14 && t[28].0.len() != 14 && t[29].0.len() != 14
            && t[30].0.len() != 14 && t[31].0.len() != 14 && t[32].0.len() != 14
            && t[33].0.len() != 14 && t[34].0.len() != 14 && t[35].0.len() != 14
            && t[36].0.len() != 14 && t[37].0.len() != 14 && t[38].0.len() != 14
            && t[39].0.len() != 14 && t[40].0[0] != 'l' && t[41].0.len() != 14
            && t[42].0.len() != 14 && t[43].0.len() != 14 && t[44].0.len() != 14
            && t[45].0.len() != 14 && t[46].0.len() != 14 && t[47].0.len() != 14
            && t[48].0.len() != 14 && t[49].0[0] != 'l' && t[50].0.len() != 14
            && t[51].0.len() != 14 && t[52].0.len() != 14 && t[53].0.len() != 14
            && t[54].0[0] != 'l' && sp[0].len() != 14 && sp[1].len() != 14 && sp[2].len() != 14
            && sp[3].len() != 14);
        lemma_table_binding(speed, "layer_height_0"@, 14);
    }
    assert(last_binding(placeholder_bindings(speed), "machine_height"@) == Some(Some("{z_max}"@))) by {
        assert(t[17].0.len() != 14 && t[18].0.len() != 14 && t[19].0.len() != 14
            && t[20].0.len() != 14 && t[21].0.len() != 14 && t[22].0[2] != 'c'
            && t[23].0.len() != 14 && t[24].0.len() != 14 && t[25].0.len() != 14
            && t[26].0.len() != 14 && t[27].0.len() != 14 && t[28].0.len() != 14
            && t[29].0.len() != 14 && t[30].0.len() != 14 && t[31].0.len() != 14
            && t[32].0.len() != 14 && t[33].0.len() != 14 && t[34].0.len() != 14
            && t[35].0.len() != 14 && t[36].0.len() != 14 && t[37].0.len() != 14
            && t[38].0.len() != 14 && t[39].0.len() != 14 && t[40].0[0] != 'm'
            && t[41].0.len() != 14 && t[42].0.len() != 14 && t[43].0.len() != 14
            && t[44].0.len() != 14 && t[45].0.len() != 14 && t[46].0.len() != 14
            && t[47].0.len() != 14 && t[48].0.len() != 14 && t[49].0[0] != 'm'
            && t[50].0.len() != 14 && t[51].0.len() != 14 && t[52].0.len() != 14
            && t[53].0.len() != 14 && t[54].0[0] != 'm' && sp[0].len() != 14 && sp[1].len() != 14
            && sp[2].len() != 14 && sp[3].len() != 14);
        lemma_table_binding(speed, "machine_height"@, 16);
    }
    assert(last_binding(placeholder_bindings(speed), "machine_width"@) == Some(Some("{right}"@))) by {
        assert(t[19].0[8] != 'w' && t[20].0.len() != 13 && t[21].0.len() != 13
            && t[22].0.len() != 13 && t[23].0[2] != 'c' && t[24].0[2] != 'c'
            && t[25].0.len() != 13 && t[26].0[2] != 'c' && t[27].0.len() != 13
            && t[28].0.len() != 13 && t[29].0.len() != 13 && t[30].0.len() != 13
            && t[31].0.len() != 13 && t[32].0.len() != 13 && t[33].0.len() != 13
            && t[34].0.len() != 13 && t[35].0.len() != 13 && t[36].0.len() != 13
            && t[37].0.len() != 13 && t[38].0.len() != 13 && t[39].0.len() != 13
            && t[40].0.len() != 13 && t[41].0.len() != 13 && t[42].0.len() != 13
            && t[43].0.len() != 13 && t[44].0.len() != 13 && t[45].0.len() != 13
            && t[46].0.len() != 13 && t[47].0.len() != 13 && t[48].0.len() != 13
            && t[49].0.len() != 13 && t[50].0.len() != 13 && t[51].0.len() != 13
            && t[52].0.len() != 13 && t[53].0.len() != 13 && t[54].0.len() != 13
            && sp[0].len() != 13 && sp[1].len() != 13 && sp[2].len() != 13 && sp[3].len() != 13);
        lemma_table_binding(speed, "machine_width"@, 18);
    }
    assert(last_binding(placeholder_bindings(speed), "machine_depth"@) == Some(Some("{bottom}"@))) by {
        assert(t[20].0.len() != 13 && t[21].0.len() != 13 && t[22].0.len() != 13
            && t[23].0[2] != 'c' && t[24].0[2] != 'c' && t[25].0.len() != 13 && t[26].0[2] != 'c'
            && t[27].0.len() != 13 && t[28].0.len() != 13 && t[29].0.len() != 13
            && t[30].0.len() != 13 && t[31].0.len() != 13 && t[32].0.len() != 13
            && t[33].0.len() != 13 && t[34].0.len() != 13 && t[35].0.len() != 13
            && t[36].0.len() != 13 && t[37].0.len() != 13 && t[38].0.len() != 13
            && t[39].0.len() != 13 && t[40].0.len() != 13 && t[41].0.len() != 13
            && t[42].0.len() != 13 && t[43].0.len() != 13 && t[44].0.len() != 13
            && t[45].0.len() != 13 && t[46].0.len() != 13 && t[47].0.len() != 13
            && t[48].0.len() != 13 && t[49].0.len() != 13 && t[50].0.len() != 13
            && t[51].0.len() != 13 && t[52].0.len() != 13 && t[53].0.len() != 13
            && t[54].0.len() != 13 && sp[0].len() != 13 && sp[1].len() != 13 && sp[2].len() != 13
            && sp[3].len() != 13);
        lemma_table_binding(speed, "machine_depth"@, 19);
    }
    assert(last_binding(placeholder_bindings(speed), "build_volume_temperature"@) == Some(None::<Seq<char>>)) by {
        assert(t[1].0.len() != 24 && t[2].0.len() != 24 && t[3].0.len() != 24
            && t[4].0.len() != 24 && t[5].0.len() != 24 && t[6].0.len() != 24
            && t[7].0.len() != 24 && t[8].0.len() != 24 && t[9].0.len() != 24
            && t[10].0.len() != 24 && t[11].0.len() != 24 && t[12].0.len() != 24
            && t[13].0.len() != 24 && t[14].0.len() != 24 && t[15].0.len() != 24
            && t[16].0.len() != 24 && t[17].0.len() != 24 && t[18].0.len() != 24
            && t[19].0.len() != 24 && t[20].0[0] != 'b' && t[21].0.len() != 24
            && t[22].0.len() != 24 && t[23].0.len() != 24 && t[24].0.len() != 24
            && t[25].0.len() != 24 && t[26].0.len() != 24 && t[27].0.len() != 24
            && t[28].0.len() != 24 && t[29].0.len() != 24 && t[30].0.len() != 24
            && t[31].0.len() != 24 && t[32].0.len() != 24 && t[33].0.len() != 24
            && t[34].0.len() != 24 && t[35].0.len() != 24 && t[36].0.len() != 24
            && t[37].0.len() != 24 && t[38].0.len() != 24 && t[39].0.len() != 24
            && t[40].0.len() != 24 && t[41].0.len() != 24 && t[42].0[0] != 'b'
            && t[43].0.len() != 24 && t[44].0.len() != 24 && t[45].0.len() != 24
            && t[46].0.len() != 24 && t[47].0.len() != 24 && t[48].0.len() != 24
            && t[49].0.len() != 24 && t[50].0.len() != 24 && t[51].0.len() != 24
            && t[52].0.len() != 24 && t[53].0.len() != 24 && t[54].0.len() != 24
            && sp[0].len() != 24 && sp[1].len() != 24 && sp[2].len() != 24 && sp[3].len() != 24);
        lemma_table_binding(speed, "build_volume_temperature"@, 0);
    }
    assert(last_binding(placeholder_bindings(speed), "default_material_print_temperature"@) == Some(None::<Seq<char>>)) by {
        assert(t[6].0.len() != 34 && t[7].0.len() != 34 && t[8].0.len() != 34
            && t[9].0.len() != 34 && t[10].0.len() != 34 && t[11].0.len() != 34
            && t[12].0.len() != 34 && t[13].0.len() != 34 && t[14].0.len() != 34
            && t[15].0.len() != 34 && t[16].0.len() != 34 && t[17].0.len() != 34
            && t[18].0.len() != 34 && t[19].0.len() != 34 && t[20].0.len() != 34
            && t[21].0.len() != 34 && t[22].0.len() != 34 && t[23].0.len() != 34
            && t[24].0.len() != 34 && t[25].0.len() != 34 && t[26].0.len() != 34
            && t[27].0[0] != 'd' && t[28].0.len() != 34 && t[29].0.len() != 34
            && t[30].0.len() != 34 && t[31].0[0] != 'd' && t[32].0.len() != 34
            && t[33].0.len() != 34 && t[34].0.len() != 34 && t[35].0.len() != 34
            && t[36].0.len() != 34 && t[37].0.len() != 34 && t[38].0.len() != 34
            && t[39].0.len() != 34 && t[40].0.len() != 34 && t[41].0.len() != 34
            && t[42].0.len() != 34 && t[43].0.len() != 34 && t[44].0.len() != 34
            && t[45].0.len() != 34 && t[46].0.len() != 34 && t[47].0.len() != 34
            && t[48].0.len() != 34 && t[49].0.len() != 34 && t[50].0.len() != 34
            && t[51].0.len() != 34 && t[52].0.len() != 34 && t[53].0.len() != 34
            && t[54].0.len() != 34 && sp[0].len() != 34 && sp[1].len() != 34 && sp[2].len() != 34
            && sp[3].len() != 34);
        lemma_table_binding(speed, "default_material_print_temperature"@, 5);
    }
    assert(last_binding(placeholder_bindings(speed), "material_print_temperature_layer_0, initial_extruder_nr"@) == Some(None::<Seq<char>>)) by {
        assert(t[33].0.len() != 55 && t[34].0.len() != 55 && t[35].0.len() != 55
            && t[36].0.len() != 55 && t[37].0.len() != 55 && t[38].0.len() != 55
            && t[39].0.len() != 55 && t[40].0.len() != 55 && t[41].0.len() != 55
            && t[42].0.len() != 55 && t[43].0.len() != 55 && t[44].0.len() != 55
            && t[45].0.len() != 55 && t[46].0.len() != 55 && t[47].0.len() != 55
            && t[48].0.len() != 55 && t[49].0.len() != 55 && t[50].0.len() != 55
            && t[51].0.len() != 55 && t[52].0.len() != 55 && t[53].0.len() != 55
            && t[54].0.len() != 55 && sp[0].len() != 55 && sp[1].len() != 55 && sp[2].len() != 55
            && sp[3].len() != 55);
        lemma_table_binding(speed, "material_print_temperature_layer_0, initial_extruder_nr"@, 32);
    }
    assert(last_binding(placeholder_bindings(speed), "material_standby_temperature"@) == Some(None::<Seq<char>>)) by {
        assert(t[35].0.len() != 28 && t[36].0.len() != 28 && t[37].0.len() != 28
            && t[38].0.len() != 28 && t[39].0.len() != 28 && t[40].0.len() != 28
            && t[41].0.len() != 28 && t[42].0.len() != 28 && t[43].0.len() != 28
            && t[44].0.len() != 28 && t[45].0.len() != 28 && t[46].0.len() != 28
            && t[47].0.len() != 28 && t[48].0.len() != 28 && t[49].0.len() != 28
            && t[50].0.len() != 28 && t[51].0.len() != 28 && t[52].0.len() != 28
            && t[53].0.len() != 28 && t[54].0.len() != 28 && sp[0].len() != 28
            && sp[1].len() != 28 && sp[2].len() != 28 && sp[3].len() != 28);
        lemma_table_binding(speed, "material_standby_temperature"@, 34);
    }
    assert(last_binding(placeholder_bindings(speed), "material_standby_temperature, 0"@) == Some(None::<Seq<char>>)) by {
        assert(t[36].0[30] != '0' && t[37].0.len() != 31 && t[38].0.len() != 31
            && t[39].0.len() != 31 && t[40].0.len() != 31 && t[41].0.len() != 31
            && t[42].0.len() != 31 && t[43].0.len() != 31 && t[44].0.len() != 31
            && t[45].0.len() != 31 && t[46].0.len() != 31 && t[47].0.len() != 31
            && t[48].0.len() != 31 && t[49].0.len() != 31 && t[50].0.len() != 31
            && t[51].0.len() != 31 && t[52].0.len() != 31 && t[53].0.len() != 31
            && t[54].0.len() != 31 && sp[0].len() != 31 && sp[1].len() != 31 && sp[2].len() != 31
            && sp[3].len() != 31);
        lemma_table_binding(speed, "material_standby_temperature, 0"@, 35);
    }
    assert(last_binding(placeholder_bindings(speed), "material_standby_temperature, 1"@) == Some(None::<Seq<char>>)) by {
        assert(t[37].0.len() != 31 && t[38].0.len() != 31 && t[39].0.len() != 31
            && t[40].0.len() != 31 && t[41].0.len() != 31 && t[42].0.len() != 31
            && t[43].0.len() != 31 && t[44].0.len() != 31 && t[45].0.len() != 31
            && t[46].0.len() != 31 && t[47].0.len() != 31 && t[48].0.len() != 31
            && t[49].0.len() != 31 && t[50].0.len() != 31 && t[51].0.len() != 31
            && t[52].0.len() != 31 && t[53].0.len() != 31 && t[54].0.len() != 31
            && sp[0].len() != 31 && sp[1].len() != 31 && sp[2].len() != 31 && sp[3].len() != 31);
        lemma_table_binding(speed, "material_standby_temperature, 1"@, 36);
    }
    assert(last_binding(placeholder_bindings(speed), "speed_travel"@) == Some(speed)) by {
        assert(t[47].0.len() != 12 && t[48].0.len() != 12 && t[49].0.len() != 12
            && t[50].0.len() != 12 && t[51].0.len() != 12 && t[52].0[0] != 's'
            && t[53].0.len() != 12 && t[54].0.len() != 12 && sp[1].len() != 12 && sp[2][0] != 's'
            && sp[3].len() != 12);
        lemma_speed_binding(speed, "speed_travel"@, 46, 0);
    }
    assert(last_binding(placeholder_bindings(speed), "speed_travel_layer_0"@) == Some(speed)) by {
        assert(t[48].0.len() != 20 && t[49].0.len() != 20 && t[50].0.len() != 20
            && t[51].0[0] != 's' && t[52].0.len() != 20 && t[53].0.len() != 20
            && t[54].0.len() != 20 && sp[2].len() != 20 && sp[3].len() != 20);
        lemma_speed_binding(speed, "speed_travel_layer_0"@, 47, 1);
    }
    assert(last_binding(placeholder_bindings(speed), "travel_speed"@) == Some(speed)) by {
        assert(t[53].0.len() != 12 && t[54].0.len() != 12 && sp[3].len() != 12);
        lemma_speed_binding(speed, "travel_speed"@, 52, 2);
    }
    assert(last_binding(placeholder_bindings(speed), "travel_xy_speed"@) == Some(speed)) by {
        assert(t[54].0.len() != 15);
        lemma_speed_binding(speed, "travel_xy_speed"@, 53, 3);
    }
    let bs = placeholder_bindings(speed);
    assert forall|j: int| 0 <= j < bs.len() implies ((#[trigger] bs[j]).1 matches Some(v) ==> v == "{temp}"@ || v == "{bed_temp}"@ || v == "{height}"@ || v == "{z_max}"@ || v == "{right}"@ || v == "{bottom}"@
        || speed == Some(v)) by {
        if j < t.len() {
            assert(bs[j] == t[j]);
        }
    }
}



/// Whether `s` holds at most one `{`.
pub open spec fn at_most_one_open_brace(s: Seq<char>) -> bool {
    forall|i: int, j: int| 0 <= i < s.len() && 0 <= j < s.len() && s[i] == '{' && s[j] == '{' ==> i == j
}

/// A line that holds exactly one `{`, before which stands no `;`, and then one `}`, with no
/// newline between them and nothing after the `}` that is a brace, is matched by the single
/// placeholder pattern with the text between the braces captured.
proof fn lemma_single_capture(a: Seq<char>, name: Seq<char>, c: Seq<char>)
    requires
        forall|i: int| 0 <= i < a.len() ==> #[trigger] a[i] != ';' && a[i] != '{',
        forall|i: int| 0 <= i < name.len() ==> #[trigger] name[i] != '{' && name[i] != '}' && name[i] != '\n',
        forall|i: int| 0 <= i < c.len() ==> #[trigger] c[i] != '{' && c[i] != '}',
    ensures
        placeholder_capture(a + seq!['{'] + name + seq!['}'] + c, false) == Some(name),
{
    let s = a + seq!['{'] + name + seq!['}'] + c;
    let k0 = a.len() as int;
    let j0 = (a.len() + 1 + name.len()) as int;
    assert(s[k0] == '{');
    assert(s[j0] == '}');
    assert(placeholder_match(s, false, k0, j0));
    assert forall|k2: int, j2: int| placeholder_match(s, false, k2, j2) implies k2 == k0 && j2 == j0 by {
        if k2 < k0 {
            assert(s[k2] == a[k2]);
        } else if k0 < k2 && k2 < j0 {
            assert(s[k2] == name[k2 - k0 - 1]);
        } else if k2 > j0 {
            assert(s[k2] == c[k2 - j0 - 1]);
        }
        if k0 < j2 && j2 < j0 {
            assert(s[j2] == name[j2 - k0 - 1]);
        } else if j2 > j0 {
            assert(s[j2] == c[j2 - j0 - 1]);
        }
    }
    assert(preferred_match(s, false, k0, j0));
    let (k, j) = choose|k: int, j: int| preferred_match(s, false, k, j);
    assert(k == k0 && j == j0);
    assert(s.subrange(k0 + 1, j0) =~= name);
}

/// A line with at most one `{` is not matched by the double placeholder pattern.
proof fn lemma_no_double_capture(s: Seq<char>)
    requires
        at_most_one_open_brace(s),
    ensures
        placeholder_capture(s, true) is None,
{
    assert forall|k: int, j: int| !placeholder_match(s, true, k, j) by {
        if placeholder_match(s, true, k, j) {
            let (k2, j2) = choose|k2: int, j2: int|
                {
                    &&& j < k2 < j2 < s.len()
                    &&& free_of(s, j + 1, k2, ';')
                    &&& s[k2] == '{'
                    &&& s[j2] == '}'
                    &&& free_of(s, k2 + 1, j2, '\n')
                };
            assert(s[k] == '{' && s[k2] == '{');
        }
    }
}

/// How a G-code line with one placeholder `{name}` before its comment is resolved: where the
/// bindings do not know `name` the line stays; where they bind it to nothing the line is flagged
/// with `; PLEASE CHECK: ` in front; and where they bind it to a text with at most one `{` (such as
/// `{temp}`), `{name}` is replaced by that text.
pub proof fn lemma_single_placeholder_resolved(
    a: Seq<char>,
    name: Seq<char>,
    c: Seq<char>,
    bindings: Seq<(Seq<char>, Option<Seq<char>>)>,
)
    requires
        forall|i: int| 0 <= i < a.len() ==> #[trigger] a[i] != ';' && a[i] != '{',
        forall|i: int| 0 <= i < name.len() ==> #[trigger] name[i] != '{' && name[i] != '}' && name[i] != '\n',
        forall|i: int| 0 <= i < c.len() ==> #[trigger] c[i] != '{' && c[i] != '}',
    ensures
        last_binding(bindings, name) is None ==> pruned_line(a + "{"@ + name + "}"@ + c, bindings)
            == a + "{"@ + name + "}"@ + c,
        last_binding(bindings, name) == Some(None::<Seq<char>>) ==> pruned_line(
            a + "{"@ + name + "}"@ + c,
            bindings,
        ) == "; PLEASE CHECK: "@ + a + "{"@ + name + "}"@ + c,
        last_binding(bindings, name) matches Some(Some(r)) ==> (at_most_one_open_brace(r)
            ==> pruned_line(a + "{"@ + name + "}"@ + c, bindings) == a + r + c),
{
    reveal_strlit("{");
    reveal_strlit("}");
    reveal_strlit("; PLEASE CHECK: ");
    let line = a + "{"@ + name + "}"@ + c;
    assert(line =~= a + seq!['{'] + name + seq!['}'] + c);
    lemma_single_capture(a, name, c);
    assert(!(line.len() > 0 && line[0] == ';')) by {
        if a.len() == 0 {
            assert(line[0] == '{');
        } else {
            assert(line[0] == a[0]);
        }
    }
    assert(at_most_one_open_brace(line)) by {
        assert forall|i: int| 0 <= i < line.len() && line[i] == '{' implies i == a.len() by {
            if i < a.len() {
                assert(line[i] == a[i]);
            } else if a.len() < i && i <= a.len() + name.len() {
                assert(line[i] == name[i - a.len() - 1]);
            } else if i > a.len() + name.len() + 1 {
                assert(line[i] == c[i - a.len() - name.len() - 2]);
            }
        }
    }
    match last_binding(bindings, name) {
        None => {
            lemma_no_double_capture(line);
        },
        Some(None) => {
            let flagged = "; PLEASE CHECK: "@ + line;
            assert(at_most_one_open_brace(flagged)) by {
                assert forall|i: int| 0 <= i < flagged.len() && flagged[i] == '{' implies i == 16 + a.len() by {
                    if i >= 16 {
                        assert(flagged[i] == line[i - 16]);
                    }
                }
            }
            lemma_no_double_capture(flagged);
            assert(check_prefix() + line =~= "; PLEASE CHECK: "@ + a + "{"@ + name + "}"@ + c);
        },
        Some(Some(r)) => {
            if at_most_one_open_brace(r) {
                let pat = braced(name);
                assert(pat =~= seq!['{'] + name + seq!['}']);
                assert(line =~= a + (pat + c));
                lemma_replaced_skip(a, pat + c, pat, r);
                let pc = pat + c;
                assert(pc.subrange(0, pat.len() as int) =~= pat);
                assert(pc.subrange(pat.len() as int, pc.len() as int) =~= c);
                assert(replaced(pc, pat, r) == r + replaced(c, pat, r));
                assert forall|i: int| 0 <= i < c.len() implies #[trigger] c[i] != pat[0] by {}
                lemma_replaced_skip(c, seq![], pat, r);
                assert(c + Seq::<char>::empty() =~= c);
                assert(replaced(c, pat, r) == c);
                let out = a + r + c;
                assert(replaced(line, pat, r) =~= out);
                assert(at_most_one_open_brace(out)) by {
                    assert forall|i: int, j: int|
                        0 <= i < out.len() && 0 <= j < out.len() && out[i] == '{' && out[j] == '{'
                        implies i == j by {
                        if i < a.len() {
                            assert(out[i] == a[i]);
                        } else if i >= a.len() + r.len() {
                            assert(out[i] == c[i - a.len() - r.len()]);
                        }
                        if j < a.len() {
                            assert(out[j] == a[j]);
                        } else if j >= a.len() + r.len() {
                            assert(out[j] == c[j - a.len() - r.len()]);
                        }
                        assert(out[i] == r[i - a.len()]);
                        assert(out[j] == r[j - a.len()]);
                    }
                }
                lemma_no_double_capture(out);
            }
        },
    }
}


/// Resolving placeholders keeps the number of lines and their order, and leaves alone every
/// comment line (one that begins with `;`) and every line without a `{`.
pub proof fn lemma_pruned_keeps_plain_lines(
    lines: Seq<Seq<char>>,
    bindings: Seq<(Seq<char>, Option<Seq<char>>)>,
)
    ensures
        pruned(lines, bindings).len() == lines.len(),
        forall|i: int|
            0 <= i < lines.len() && lines[i].len() > 0 && lines[i][0] == ';' ==> #[trigger] pruned(
                lines,
                bindings,
            )[i] == lines[i],
        forall|i: int|
            0 <= i < lines.len() && (forall|k: int| 0 <= k < lines[i].len() ==> lines[i][k] != '{')
                ==> #[trigger] pruned(lines, bindings)[i] == lines[i],
{
    assert forall|i: int|
        0 <= i < lines.len() && (forall|k: int| 0 <= k < lines[i].len() ==> lines[i][k] != '{')
        implies #[trigger] pruned(lines, bindings)[i] == lines[i] by {
        let l = lines[i];
        assert forall|k: int, j: int| !placeholder_match(l, false, k, j) by {
            if placeholder_match(l, false, k, j) {
                assert(l[k] == '{');
            }
        }
        assert forall|k: int, j: int| !placeholder_match(l, true, k, j) by {
            if placeholder_match(l, true, k, j) {
                assert(l[k] == '{');
            }
        }
    }
}

} // verus!
