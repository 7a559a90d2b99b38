//! Status-line templates and the `{name}` placeholder substitution applied to them.

use vstd::prelude::*;
use crate::text::{replace_all, replace_str};

verus! {

/// Per-phase templates for the presence status line.
pub struct StatusStrings {
    pub game_not_running: String,
    pub in_game: String,
    pub in_main_menu: String,
    pub in_hideout: String,
    pub in_matchmaking: String,
    pub loading_into_match: String,
    pub in_match: String,
    pub match_location_label: String,
    pub post_match: String,
    pub spectating: String,
}

impl Default for StatusStrings {
    fn default() -> (r: Self)
        ensures
            r.game_not_running@ == "Not Running"@,
            r.in_game@ == "In Game"@,
            r.in_main_menu@ == "Main Menu"@,
            r.in_hideout@ == "Hideout"@,
            r.in_matchmaking@ == "Searching for Match"@,
            r.loading_into_match@ == "Loading into {mode}"@,
            r.in_match@ == "{mode} - {location}"@,
            r.match_location_label@ == "In Lane"@,
            r.post_match@ == "Post Match"@,
            r.spectating@ == "Spectating"@,
    {
        StatusStrings {
            game_not_running: String::from_str("Not Running"),
            in_game: String::from_str("In Game"),
            in_main_menu: String::from_str("Main Menu"),
            in_hideout: String::from_str("Hideout"),
            in_matchmaking: String::from_str("Searching for Match"),
            loading_into_match: String::from_str("Loading into {mode}"),
            in_match: String::from_str("{mode} - {location}"),
            match_location_label: String::from_str("In Lane"),
            post_match: String::from_str("Post Match"),
            spectating: String::from_str("Spectating"),
        }
    }
}

/// The placeholder written for a variable: its name in braces.
pub open spec fn placeholder(name: Seq<char>) -> Seq<char> {
    seq!['{'] + name + seq!['}']
}

/// The template with the variables substituted one after the other, in order:
/// every `{name}` of the first variable is replaced by its value, then in that
/// result every `{name}` of the second, and so on.
pub open spec fn substitute_vars(template: Seq<char>, vars: Seq<(Seq<char>, Seq<char>)>) -> Seq<char>
    decreases vars.len(),
{
    if vars.len() == 0 {
        template
    } else {
        replace_all(
            substitute_vars(template, vars.drop_last()),
            placeholder(vars.last().0),
            vars.last().1,
        )
    }
}

/// The (name, value) pairs of `vars`, each taken by its character sequence.
pub open spec fn vars_view(vars: Seq<(&str, &str)>) -> Seq<(Seq<char>, Seq<char>)> {
    vars.map_values(|p: (&str, &str)| (p.0@, p.1@))
}

fn placeholder_for(name: &str) -> (r: String)
    ensures
        r@ == placeholder(name@),
{
    let mut key = String::from_str("{");
    key.append(name);
    key.append("}");
    proof {
        reveal_strlit("{");
        reveal_strlit("}");
    }
    assert(key@ =~= placeholder(name@));
    key
}

/// Substitutes `vars` into `template` (see `substitute_vars`).
pub fn apply_vars(template: &str, vars: &[(&str, &str)]) -> (r: String)
    ensures
        r@ == substitute_vars(template@, vars_view(vars@)),
{
    let ghost all = vars_view(vars@);
    let mut out = String::from_str(template);
    let mut i: usize = 0;
    assert(all.take(0) =~= Seq::<(Seq<char>, Seq<char>)>::empty());
    while i < vars.len()
        invariant
            all == vars_view(vars@),
            i <= vars@.len(),
            out@ == substitute_vars(template@, all.take(i as int)),
        decreases vars@.len() - i,
    {
        let (name, value) = vars[i];
        let key = placeholder_for(name);
        out = replace_str(out.as_str(), key.as_str(), value);
        proof {
            assert(all.take(i + 1).drop_last() =~= all.take(i as int));
            assert(all.take(i + 1).last() == (name@, value@));
        }
        i += 1;
    }
    assert(all.take(vars@.len() as int) =~= all);
    out
}

} // verus!
