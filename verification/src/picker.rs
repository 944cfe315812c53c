//! Numbered menus: what they show, and what a line entered at their prompt
//! selects.

use crate::message::{fixed, message, one, says, silent, tell, Level, Message, MessageView};
use crate::text;
use vstd::prelude::*;
use vstd::string::*;

verus! {

// ----------------------------------------------------------------------------
// Selecting by number
// ----------------------------------------------------------------------------

/// The number on a line, if there is one that a `usize` can hold.
pub open spec fn number_on(line: Seq<char>) -> Option<nat> {
    match text::parse_unsigned(text::trimmed(line)) {
        Some(n) => if n <= usize::MAX {
            Some(n)
        } else {
            None
        },
        None => None,
    }
}

/// The index that a line selects from a menu whose last index is `max`: the
/// number on it, clamped to the menu, or 0 where there is no line or no number.
pub open spec fn selected(line: Option<Seq<char>>, max: nat) -> nat {
    match line {
        None => 0,
        Some(l) => match number_on(l) {
            Some(n) => if n <= max {
                n
            } else {
                max
            },
            None => 0,
        },
    }
}

/// Whether a line says something, but no number.
pub open spec fn is_invalid(line: Option<Seq<char>>) -> bool {
    match line {
        None => false,
        Some(l) => text::trimmed(l).len() > 0 && number_on(l) is None,
    }
}

/// What is said of a line that was entered.
pub open spec fn selection_messages(line: Option<Seq<char>>) -> Seq<MessageView> {
    if is_invalid(line) {
        seq![
            says(
                Level::Status,
                "Invalid selection '"@ + text::trimmed(line->0) + "', using default (0)."@,
            ),
        ]
    } else {
        seq![]
    }
}

/// Reads an index from a line, which is `None` where none could be read, and
/// clamps it to the range from 0 to `max`. Where nothing was entered, or what
/// was is no number, the index is 0.
pub fn prompt_index(line: &Option<String>, max: usize) -> (out: (usize, Vec<Message>))
    ensures
        out.0 == selected(line.deep_view(), max as nat),
        out.1.deep_view() == selection_messages(line.deep_view()),
{
    match line {
        None => (0, silent()),
        Some(l) => {
            let trimmed = text::trim(l.as_str());
            if trimmed.is_empty() {
                assert(trimmed@ =~= Seq::<char>::empty());
                return (0, silent());
            }
            match text::parse_u64(trimmed) {
                Some(n) => {
                    if n <= max as u64 {
                        return (n as usize, silent());
                    }
                    if n <= usize::MAX as u64 {
                        return (max, silent());
                    }
                },
                None => {},
            }
            let said = "Invalid selection '".to_owned().concat(trimmed).concat(
                "', using default (0).",
            );
            (0, one(message(Level::Status, said)))
        },
    }
}

/// The prompt of a menu of `what` whose last index is `max`.
pub open spec fn prompt_text(what: Seq<char>, max: nat) -> Seq<char> {
    "Please select a "@ + what + " [0-"@ + text::decimal(max) + "] (default 0): "@
}

/// Makes the prompt of a menu of `what` whose last index is `max`.
pub fn prompt_of(what: &str, max: usize) -> (out: String)
    ensures
        out@ == prompt_text(what@, max as nat),
{
    "Please select a ".to_owned().concat(what).concat(" [0-").concat(
        text::decimal_of(max as u64).as_str(),
    ).concat("] (default 0): ")
}

// ----------------------------------------------------------------------------
// Targets
// ----------------------------------------------------------------------------

/// A target, with the source that it was found under: targets of one name can
/// differ between sources.
#[derive(Debug, PartialEq, Eq)]
pub struct TargetChoice {
    pub target: String,
    pub source: String,
}

/// What a [`TargetChoice`] stands for.
pub struct TargetChoiceView {
    pub target: Seq<char>,
    pub source: Seq<char>,
}

impl DeepView for TargetChoice {
    type V = TargetChoiceView;

    open spec fn deep_view(&self) -> TargetChoiceView {
        TargetChoiceView { target: self.target@, source: self.source@ }
    }
}

/// The choices that a source with these targets adds.
pub open spec fn offered(source: Seq<char>, targets: Seq<Seq<char>>) -> Seq<TargetChoiceView> {
    targets.map_values(|t: Seq<char>| TargetChoiceView { target: t, source })
}

/// The line of the menu for the choice at index `k`.
pub open spec fn target_line(k: nat, target: Seq<char>) -> MessageView {
    says(Level::Plain, "    "@ + text::decimal(k) + ") "@ + target)
}

/// What a source with these targets adds to a menu that has `first` choices.
/// A source without targets is not mentioned.
pub open spec fn offer_messages(
    first: nat,
    source: Seq<char>,
    targets: Seq<Seq<char>>,
) -> Seq<MessageView> {
    if targets.len() == 0 {
        seq![]
    } else {
        seq![says(Level::Plain, "  Source: "@ + source)] + Seq::new(
            targets.len(),
            |i: int| target_line(first + i as nat, targets[i]),
        )
    }
}

/// Adds the targets of a source to the menu. Returns the lines to print.
pub fn offer_targets(
    choices: &mut Vec<TargetChoice>,
    source: &str,
    targets: &Vec<String>,
) -> (out: Vec<Message>)
    ensures
        final(choices).deep_view() == old(choices).deep_view() + offered(
            source@,
            targets.deep_view(),
        ),
        out.deep_view() == offer_messages(
            old(choices)@.len(),
            source@,
            targets.deep_view(),
        ),
{
    let ghost before = choices.deep_view();
    let ghost all = targets.deep_view();
    if targets.len() == 0 {
        assert(before + offered(source@, all) =~= before);
        return silent();
    }
    let mut out = one(message(Level::Plain, "  Source: ".to_owned().concat(source)));
    let mut i: usize = 0;
    assert(choices.deep_view() =~= before + offered(source@, all.take(0)));
    while i < targets.len()
        invariant
            i <= targets.len(),
            all == targets.deep_view(),
            before == old(choices).deep_view(),
            choices.deep_view() == before + offered(source@, all.take(i as int)),
            out.deep_view().len() == i + 1,
            out.deep_view()[0] == says(Level::Plain, "  Source: "@ + source@),
            forall|j: int|
                0 <= j < i ==> #[trigger] out.deep_view()[j + 1] == target_line(
                    before.len() + j as nat,
                    all[j],
                ),
        decreases targets.len() - i,
    {
        let target = targets[i].clone();
        assert(choices.deep_view().len() == choices.len());
        assert(all[i as int] == target@);
        let line = "    ".to_owned().concat(
            text::decimal_of(choices.len() as u64).as_str(),
        ).concat(") ").concat(target.as_str());
        tell(&mut out, message(Level::Plain, line));
        let ghost so_far = choices.deep_view();
        choices.push(TargetChoice { target, source: source.to_owned() });
        proof {
            let added = TargetChoiceView { target: all[i as int], source: source@ };
            assert(choices.deep_view() =~= so_far.push(added));
            assert(choices.deep_view() =~= before + offered(source@, all.take(i as int + 1)));
        }
        i += 1;
    }
    assert(all.take(all.len() as int) =~= all);
    assert(out.deep_view() =~= offer_messages(before.len(), source@, all)) by {
        let want = offer_messages(before.len(), source@, all);
        assert forall|k: int| 0 <= k < want.len() implies out.deep_view()[k] == want[k] by {
            if k > 0 {
                assert(out.deep_view()[(k - 1) + 1] == target_line(
                    before.len() + (k - 1) as nat,
                    all[k - 1],
                ));
            }
        }
    }
    out
}

/// Takes the choice that the line selects out of a menu that has at least one.
pub fn pick_target(choices: Vec<TargetChoice>, line: &Option<String>) -> (out: (
    TargetChoice,
    Vec<Message>,
))
    requires
        choices.len() > 0,
    ensures
        out.0.deep_view() == choices.deep_view()[selected(
            line.deep_view(),
            (choices.len() - 1) as nat,
        ) as int],
        out.1.deep_view() == selection_messages(line.deep_view()),
{
    let mut choices = choices;
    let (index, said) = prompt_index(line, choices.len() - 1);
    (choices.remove(index), said)
}

// ----------------------------------------------------------------------------
// Versions
// ----------------------------------------------------------------------------

/// The line of the menu for the version at index `k`; 0 is the default.
pub open spec fn version_line(k: nat, version: Seq<char>) -> MessageView {
    says(Level::Plain, " "@ + text::decimal(k) + ") "@ + version)
}

/// The menu of versions.
pub open spec fn version_menu(versions: Seq<Seq<char>>) -> Seq<MessageView> {
    seq![
        says(Level::Plain, "Available versions:"@),
        says(Level::Plain, ""@),
        says(Level::Plain, " 0) (default)"@),
    ] + Seq::new(versions.len(), |i: int| version_line((i + 1) as nat, versions[i])) + seq![
        says(Level::Plain, ""@),
    ]
}

/// Makes the menu of versions.
pub fn version_menu_of(versions: &Vec<String>) -> (out: Vec<Message>)
    ensures
        out.deep_view() == version_menu(versions.deep_view()),
{
    let ghost all = versions.deep_view();
    let mut out = one(fixed(Level::Plain, "Available versions:"));
    tell(&mut out, fixed(Level::Plain, ""));
    tell(&mut out, fixed(Level::Plain, " 0) (default)"));
    let ghost head = out.deep_view();
    let mut i: usize = 0;
    while i < versions.len()
        invariant
            i <= versions.len(),
            all == versions.deep_view(),
            head.len() == 3,
            out.deep_view().len() == 3 + i,
            forall|j: int| 0 <= j < 3 ==> #[trigger] out.deep_view()[j] == head[j],
            forall|j: int|
                3 <= j < 3 + i ==> #[trigger] out.deep_view()[j] == version_line(
                    (j - 2) as nat,
                    all[j - 3],
                ),
        decreases versions.len() - i,
    {
        assert(all[i as int] == versions[i as int]@);
        let line = " ".to_owned().concat(text::decimal_of((i + 1) as u64).as_str()).concat(
            ") ",
        ).concat(versions[i].as_str());
        tell(&mut out, message(Level::Plain, line));
        i += 1;
    }
    tell(&mut out, fixed(Level::Plain, ""));
    assert(out.deep_view() =~= version_menu(all));
    out
}

/// The version that a line selects: index 0 stands for the default, which is
/// no version.
pub open spec fn selected_version(
    versions: Seq<Seq<char>>,
    line: Option<Seq<char>>,
) -> Option<Seq<char>> {
    let index = selected(line, versions.len());
    if index == 0 {
        None
    } else {
        Some(versions[index - 1])
    }
}

/// Picks the version that the line selects.
pub fn pick_version(versions: &Vec<String>, line: &Option<String>) -> (out: (
    Option<String>,
    Vec<Message>,
))
    ensures
        out.0.deep_view() == selected_version(versions.deep_view(), line.deep_view()),
        out.1.deep_view() == selection_messages(line.deep_view()),
{
    assert(versions.deep_view().len() == versions.len());
    let (index, said) = prompt_index(line, versions.len());
    if index == 0 {
        (None, said)
    } else {
        assert(versions.deep_view()[index - 1] == versions[index - 1]@);
        (Some(versions[index - 1].clone()), said)
    }
}

// ----------------------------------------------------------------------------
// Laws
// ----------------------------------------------------------------------------

/// Whatever is entered, an index of the menu is selected.
pub proof fn law_selection_is_in_range(line: Option<Seq<char>>, max: nat)
    ensures
        selected(line, max) <= max,
{
}

/// Entering a number of the menu selects it, without a word.
pub proof fn law_number_selects_itself(k: nat, max: nat)
    requires
        k <= max <= usize::MAX,
    ensures
        selected(Some(text::decimal(k)), max) == k,
        selection_messages(Some(text::decimal(k))) == Seq::<MessageView>::empty(),
{
    lemma_number_on_decimal(k);
}

/// Entering a number beyond the menu selects the last one, without a word.
pub proof fn law_number_beyond_is_clamped(k: nat, max: nat)
    requires
        max <= k <= usize::MAX,
    ensures
        selected(Some(text::decimal(k)), max) == max,
        selection_messages(Some(text::decimal(k))) == Seq::<MessageView>::empty(),
{
    lemma_number_on_decimal(k);
}

/// Whatever is no number selects the first one.
pub proof fn law_no_number_selects_the_default(line: Option<Seq<char>>, max: nat)
    requires
        line is Some ==> number_on(line->0) is None,
    ensures
        selected(line, max) == 0,
{
}

proof fn lemma_number_on_decimal(k: nat)
    requires
        k <= usize::MAX,
    ensures
        number_on(text::decimal(k)) == Some(k),
{
    text::law_decimal_round_trip(k);
    text::lemma_decimal_digits(k);
    let d = text::decimal(k);
    assert(!text::white_space(d[0]));
    assert(!text::white_space(d.last()));
}

/// The number that a target is listed under is the one that selects it, with
/// the source that it was found under: after a source was added to a menu, its
/// target at index `i` stands at the index that its line shows.
pub proof fn law_listed_number_selects_target(
    choices: Seq<TargetChoiceView>,
    source: Seq<char>,
    targets: Seq<Seq<char>>,
    i: int,
)
    requires
        0 <= i < targets.len(),
        choices.len() + targets.len() <= usize::MAX,
    ensures
        ({
            let menu = choices + offered(source, targets);
            let k = choices.len() + i as nat;
            &&& offer_messages(choices.len(), source, targets)[i + 1] == target_line(
                k,
                targets[i],
            )
            &&& menu[selected(Some(text::decimal(k)), (menu.len() - 1) as nat) as int]
                == TargetChoiceView { target: targets[i], source }
        }),
{
    let menu = choices + offered(source, targets);
    let k = choices.len() + i as nat;
    law_number_selects_itself(k, (menu.len() - 1) as nat);
    assert(menu[k as int] == offered(source, targets)[i]);
}

/// The number that a version is listed under is the one that selects it, and 0
/// selects the default.
pub proof fn law_listed_number_selects_version(versions: Seq<Seq<char>>, i: int)
    requires
        0 <= i < versions.len() <= usize::MAX,
    ensures
        version_menu(versions)[i + 3] == version_line((i + 1) as nat, versions[i]),
        selected_version(versions, Some(text::decimal((i + 1) as nat))) == Some(versions[i]),
        selected_version(versions, Some(text::decimal(0))) is None,
{
    law_number_selects_itself((i + 1) as nat, versions.len());
    law_number_selects_itself(0, versions.len());
}

/// White space around a number does not matter, nor does a plus sign before it.
pub proof fn law_number_may_be_surrounded(
    before: Seq<char>,
    behind: Seq<char>,
    k: nat,
    max: nat,
)
    requires
        text::is_blank(before),
        text::is_blank(behind),
        k <= max <= usize::MAX,
    ensures
        selected(Some(before + text::decimal(k) + behind), max) == k,
        selected(Some(before + (seq!['+'] + text::decimal(k)) + behind), max) == k,
{
    let d = text::decimal(k);
    let p = seq!['+'] + d;
    text::law_decimal_round_trip(k);
    text::lemma_decimal_digits(k);
    assert(text::is_digit(d[0]));
    assert(text::is_digit(d.last()));
    text::law_surroundings_are_trimmed(before, d, behind);
    assert(p.last() == d.last());
    text::law_surroundings_are_trimmed(before, p, behind);
    text::law_digits_count_by_tens(d, 0);
}

/// A line that says something which is no number is told of, by what it says; of
/// every other line nothing is said.
pub proof fn law_only_nonsense_is_told(line: Option<Seq<char>>)
    ensures
        ({
            let said = selection_messages(line);
            match line {
                None => said.len() == 0,
                Some(l) => {
                    let entered = text::trimmed(l);
                    let number = text::parse_unsigned(entered);
                    if entered.len() > 0 && (number is None || number->0 > usize::MAX) {
                        said == seq![
                            MessageView {
                                level: Level::Status,
                                text: "Invalid selection '"@ + entered + "', using default (0)."@,
                            },
                        ]
                    } else {
                        said.len() == 0
                    }
                },
            }
        }),
{
}

/// A prompt says what is selected and the last index.
pub proof fn law_prompt_names_the_range(what: Seq<char>, max: nat)
    ensures
        prompt_text(what, max) == "Please select a "@ + what + " [0-"@ + text::decimal(max)
            + "] (default 0): "@,
{
}

/// A source is listed with its targets in order, each behind the number that
/// selects it; a source without targets is not.
pub proof fn law_menu_lists_every_target(
    choices: Seq<TargetChoiceView>,
    source: Seq<char>,
    targets: Seq<Seq<char>>,
)
    ensures
        ({
            let said = offer_messages(choices.len(), source, targets);
            let added = offered(source, targets);
            &&& added.len() == targets.len()
            &&& forall|i: int|
                0 <= i < targets.len() ==> (#[trigger] added[i]).target == targets[i]
                    && added[i].source == source
            &&& targets.len() == 0 ==> said.len() == 0
            &&& targets.len() > 0 ==> {
                &&& said.len() == targets.len() + 1
                &&& said[0].level == Level::Plain
                &&& said[0].text == "  Source: "@ + source
                &&& forall|i: int|
                    0 <= i < targets.len() ==> #[trigger] said[i + 1] == MessageView {
                        level: Level::Plain,
                        text: "    "@ + text::decimal((choices.len() + i) as nat) + ") "@
                            + targets[i],
                    }
            }
        }),
{
}

/// The menu of versions has the default at 0 and every version in order, each
/// behind the number that selects it.
pub proof fn law_menu_lists_every_version(versions: Seq<Seq<char>>)
    ensures
        ({
            let said = version_menu(versions);
            let empty = MessageView { level: Level::Plain, text: ""@ };
            &&& said.len() == versions.len() + 4
            &&& said[0] == MessageView { level: Level::Plain, text: "Available versions:"@ }
            &&& said[1] == empty
            &&& said[2] == MessageView { level: Level::Plain, text: " 0) (default)"@ }
            &&& said.last() == empty
            &&& forall|i: int|
                0 <= i < versions.len() ==> #[trigger] said[i + 3] == MessageView {
                    level: Level::Plain,
                    text: " "@ + text::decimal((i + 1) as nat) + ") "@ + versions[i],
                }
        }),
{
}

} // verus!
