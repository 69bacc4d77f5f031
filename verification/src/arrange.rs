//! Choosing the two outputs to arrange and working out the commands that
//! arrange them.

use vstd::prelude::*;
use crate::display::{command_text, display_of, Display};
use crate::error::{ArrangeError, Role};
use crate::orientation::Orientation;
use crate::output::Output;
use crate::placement::{placed, DisplayView};

verus! {

/// Whether `output` can play the primary role: it is active and bears the name
/// asked for.
pub open spec fn is_primary(output: Output, primary_name: Seq<char>) -> bool {
    output.active && output.name@ == primary_name
}

/// Whether `output` can play the secondary role: it is active, it does not bear
/// the primary output's name and, where a name is asked for, it bears that name.
pub open spec fn is_secondary(
    output: Output,
    primary_name: Seq<char>,
    secondary_name: Option<Seq<char>>,
) -> bool {
    &&& output.active
    &&& output.name@ != primary_name
    &&& match secondary_name {
        Some(name) => output.name@ == name,
        None => true,
    }
}

/// How many of `outputs` are active.
pub open spec fn active_count(outputs: Seq<Output>) -> nat
    decreases outputs.len(),
{
    if outputs.len() == 0 {
        0
    } else if outputs.first().active {
        1 + active_count(outputs.drop_first())
    } else {
        active_count(outputs.drop_first())
    }
}

/// The first of `outputs` that can play the primary role, if there is one.
pub open spec fn first_primary(outputs: Seq<Output>, primary_name: Seq<char>) -> Option<Output>
    decreases outputs.len(),
{
    if outputs.len() == 0 {
        None
    } else if is_primary(outputs.first(), primary_name) {
        Some(outputs.first())
    } else {
        first_primary(outputs.drop_first(), primary_name)
    }
}

/// The first of `outputs` that can play the secondary role, if there is one.
pub open spec fn first_secondary(
    outputs: Seq<Output>,
    primary_name: Seq<char>,
    secondary_name: Option<Seq<char>>,
) -> Option<Output>
    decreases outputs.len(),
{
    if outputs.len() == 0 {
        None
    } else if is_secondary(outputs.first(), primary_name, secondary_name) {
        Some(outputs.first())
    } else {
        first_secondary(outputs.drop_first(), primary_name, secondary_name)
    }
}

/// The two displays to arrange, the primary one first.
///
/// With fewer than two active outputs there is nothing to arrange. Otherwise
/// the primary output is looked for first and the secondary one after it, and
/// the first of them that is missing, or that has no current mode, decides the
/// error.
pub open spec fn selection(
    outputs: Seq<Output>,
    primary_name: Seq<char>,
    secondary_name: Option<Seq<char>>,
) -> Result<Option<(DisplayView, DisplayView)>, ArrangeError> {
    if active_count(outputs) <= 1 {
        Ok(None)
    } else {
        match first_primary(outputs, primary_name) {
            None => Err(ArrangeError::OutputNotFound(Role::Primary)),
            Some(primary_output) => match display_of(primary_output) {
                None => Err(ArrangeError::NoActiveMode),
                Some(primary) => match first_secondary(outputs, primary_name, secondary_name) {
                    None => Err(ArrangeError::OutputNotFound(Role::Secondary)),
                    Some(secondary_output) => match display_of(secondary_output) {
                        None => Err(ArrangeError::NoActiveMode),
                        Some(secondary) => Ok(Some((primary, secondary))),
                    },
                },
            },
        }
    }
}

/// The commands that arrange `outputs`: none where there is nothing to arrange;
/// otherwise the secondary display is placed `orientation` of the primary one,
/// and the command for the primary display comes before the command for the
/// secondary one.
pub open spec fn arrangement(
    outputs: Seq<Output>,
    primary_name: Seq<char>,
    orientation: Orientation,
    secondary_name: Option<Seq<char>>,
) -> Result<Seq<Seq<char>>, ArrangeError> {
    match selection(outputs, primary_name, secondary_name) {
        Err(error) => Err(error),
        Ok(None) => Ok(Seq::empty()),
        Ok(Some((primary, secondary))) => {
            let (secondary, primary) = placed(secondary, orientation, primary);
            Ok(seq![command_text(primary), command_text(secondary)])
        },
    }
}

/// What [`first_primary`] finds is the earliest output that can play the
/// primary role: it stands at some position of `outputs`, and no output before
/// that position can play the role. It finds nothing exactly when no output
/// can.
pub proof fn lemma_first_primary_is_earliest(outputs: Seq<Output>, primary_name: Seq<char>)
    ensures
        match first_primary(outputs, primary_name) {
            Some(found) => exists|i: int|
                {
                    &&& 0 <= i < outputs.len()
                    &&& #[trigger] outputs[i] == found
                    &&& is_primary(found, primary_name)
                    &&& forall|j: int| 0 <= j < i ==> !is_primary(#[trigger] outputs[j], primary_name)
                },
            None => forall|j: int|
                0 <= j < outputs.len() ==> !is_primary(#[trigger] outputs[j], primary_name),
        },
    decreases outputs.len(),
{
    if outputs.len() > 0 {
        let rest = outputs.drop_first();
        lemma_first_primary_is_earliest(rest, primary_name);
        assert(forall|j: int| 0 <= j < rest.len() ==> rest[j] == outputs[j + 1]);
        if is_primary(outputs.first(), primary_name) {
            assert(outputs[0] == outputs.first());
        } else {
            match first_primary(rest, primary_name) {
                Some(found) => {
                    let k = choose|i: int|
                        {
                            &&& 0 <= i < rest.len()
                            &&& #[trigger] rest[i] == found
                            &&& is_primary(found, primary_name)
                            &&& forall|j: int|
                                0 <= j < i ==> !is_primary(#[trigger] rest[j], primary_name)
                        };
                    assert(outputs[k + 1] == found);
                    assert forall|j: int| 0 <= j < k + 1 implies !is_primary(
                        #[trigger] outputs[j],
                        primary_name,
                    ) by {
                        if j > 0 {
                            assert(rest[j - 1] == outputs[j]);
                        }
                    }
                },
                None => {
                    assert forall|j: int| 0 <= j < outputs.len() implies !is_primary(
                        #[trigger] outputs[j],
                        primary_name,
                    ) by {
                        if j > 0 {
                            assert(rest[j - 1] == outputs[j]);
                        }
                    }
                },
            }
        }
    }
}

/// What [`first_secondary`] finds is the earliest output that can play the
/// secondary role: it stands at some position of `outputs`, and no output
/// before that position can play the role. It finds nothing exactly when no
/// output can.
pub proof fn lemma_first_secondary_is_earliest(
    outputs: Seq<Output>,
    primary_name: Seq<char>,
    secondary_name: Option<Seq<char>>,
)
    ensures
        match first_secondary(outputs, primary_name, secondary_name) {
            Some(found) => exists|i: int|
                {
                    &&& 0 <= i < outputs.len()
                    &&& #[trigger] outputs[i] == found
                    &&& is_secondary(found, primary_name, secondary_name)
                    &&& forall|j: int|
                        0 <= j < i ==> !is_secondary(
                            #[trigger] outputs[j],
                            primary_name,
                            secondary_name,
                        )
                },
            None => forall|j: int|
                0 <= j < outputs.len() ==> !is_secondary(
                    #[trigger] outputs[j],
                    primary_name,
                    secondary_name,
                ),
        },
    decreases outputs.len(),
{
    if outputs.len() > 0 {
        let rest = outputs.drop_first();
        lemma_first_secondary_is_earliest(rest, primary_name, secondary_name);
        assert(forall|j: int| 0 <= j < rest.len() ==> rest[j] == outputs[j + 1]);
        if is_secondary(outputs.first(), primary_name, secondary_name) {
            assert(outputs[0] == outputs.first());
        } else {
            match first_secondary(rest, primary_name, secondary_name) {
                Some(found) => {
                    let k = choose|i: int|
                        {
                            &&& 0 <= i < rest.len()
                            &&& #[trigger] rest[i] == found
                            &&& is_secondary(found, primary_name, secondary_name)
                            &&& forall|j: int|
                                0 <= j < i ==> !is_secondary(
                                    #[trigger] rest[j],
                                    primary_name,
                                    secondary_name,
                                )
                        };
                    assert(outputs[k + 1] == found);
                    assert forall|j: int| 0 <= j < k + 1 implies !is_secondary(
                        #[trigger] outputs[j],
                        primary_name,
                        secondary_name,
                    ) by {
                        if j > 0 {
                            assert(rest[j - 1] == outputs[j]);
                        }
                    }
                },
                None => {
                    assert forall|j: int| 0 <= j < outputs.len() implies !is_secondary(
                        #[trigger] outputs[j],
                        primary_name,
                        secondary_name,
                    ) by {
                        if j > 0 {
                            assert(rest[j - 1] == outputs[j]);
                        }
                    }
                },
            }
        }
    }
}

/// With at most one active output nothing is arranged: no display is selected,
/// no command is issued and nothing fails, whatever the names asked for.
pub proof fn lemma_nothing_to_arrange(
    outputs: Seq<Output>,
    primary_name: Seq<char>,
    orientation: Orientation,
    secondary_name: Option<Seq<char>>,
)
    requires
        active_count(outputs) <= 1,
    ensures
        selection(outputs, primary_name, secondary_name) == Ok::<
            Option<(DisplayView, DisplayView)>,
            ArrangeError,
        >(None),
        arrangement(outputs, primary_name, orientation, secondary_name) == Ok::<
            Seq<Seq<char>>,
            ArrangeError,
        >(Seq::empty()),
{
}

/// An output without a current mode never reaches a placement: where the
/// output chosen for either role has none, the arrangement fails with
/// [`ArrangeError::NoActiveMode`] and issues no command.
pub proof fn lemma_missing_mode_fails(
    outputs: Seq<Output>,
    primary_name: Seq<char>,
    orientation: Orientation,
    secondary_name: Option<Seq<char>>,
)
    requires
        active_count(outputs) > 1,
        first_primary(outputs, primary_name) matches Some(primary_output) && (
        primary_output.current_mode is None || (first_secondary(
            outputs,
            primary_name,
            secondary_name,
        ) matches Some(secondary_output) && secondary_output.current_mode is None)),
    ensures
        arrangement(outputs, primary_name, orientation, secondary_name) == Err::<
            Seq<Seq<char>>,
            ArrangeError,
        >(ArrangeError::NoActiveMode),
{
}

/// The view of an optional name.
pub open spec fn name_view(name: Option<String>) -> Option<Seq<char>> {
    match name {
        Some(name) => Some(name@),
        None => None,
    }
}

/// Counts the active outputs.
pub fn count_active(outputs: &Vec<Output>) -> (count: usize)
    ensures
        count == active_count(outputs@),
{
    let mut count: usize = 0;
    assert(outputs@.skip(0) == outputs@);
    for i in 0..outputs.len()
        invariant
            count <= i,
            count + active_count(outputs@.skip(i as int)) == active_count(outputs@),
    {
        assert(outputs@.skip(i as int).drop_first() == outputs@.skip(i + 1));
        if outputs[i].active {
            count += 1;
        }
    }
    count
}

/// Finds the output that plays the primary role: the first active output named
/// `primary_name`.
pub fn find_primary<'a>(outputs: &'a Vec<Output>, primary_name: &String) -> (found: Option<
    &'a Output,
>)
    ensures
        match found {
            Some(output) => first_primary(outputs@, primary_name@) == Some(*output),
            None => first_primary(outputs@, primary_name@) is None,
        },
{
    assert(outputs@.skip(0) == outputs@);
    for i in 0..outputs.len()
        invariant
            first_primary(outputs@.skip(i as int), primary_name@) == first_primary(
                outputs@,
                primary_name@,
            ),
    {
        assert(outputs@.skip(i as int).drop_first() == outputs@.skip(i + 1));
        let output = &outputs[i];
        if output.active && output.name == *primary_name {
            return Some(output);
        }
    }
    None
}

/// Finds the output that plays the secondary role: the first active output
/// that is not named `primary_name` and, where `secondary_name` is given, is
/// named so.
pub fn find_secondary<'a>(
    outputs: &'a Vec<Output>,
    primary_name: &String,
    secondary_name: &Option<String>,
) -> (found: Option<&'a Output>)
    ensures
        match found {
            Some(output) => first_secondary(outputs@, primary_name@, name_view(*secondary_name))
                == Some(*output),
            None => first_secondary(outputs@, primary_name@, name_view(*secondary_name)) is None,
        },
{
    assert(outputs@.skip(0) == outputs@);
    for i in 0..outputs.len()
        invariant
            first_secondary(outputs@.skip(i as int), primary_name@, name_view(*secondary_name))
                == first_secondary(outputs@, primary_name@, name_view(*secondary_name)),
    {
        assert(outputs@.skip(i as int).drop_first() == outputs@.skip(i + 1));
        let output = &outputs[i];
        let named_as_asked = match secondary_name {
            Some(name) => output.name == *name,
            None => true,
        };
        if output.active && !(output.name == *primary_name) && named_as_asked {
            return Some(output);
        }
    }
    None
}

/// Chooses the two displays to arrange from what the compositor reports: the
/// primary one first, the secondary one second, or neither where fewer than
/// two outputs are active.
pub fn select_displays(
    outputs: &Vec<Output>,
    primary_name: &String,
    secondary_name: &Option<String>,
) -> (result: Result<Option<(Display, Display)>, ArrangeError>)
    ensures
        match result {
            Ok(Some((primary, secondary))) => selection(
                outputs@,
                primary_name@,
                name_view(*secondary_name),
            ) == Ok::<Option<(DisplayView, DisplayView)>, ArrangeError>(
                Some((primary@, secondary@)),
            ),
            Ok(None) => selection(outputs@, primary_name@, name_view(*secondary_name)) == Ok::<
                Option<(DisplayView, DisplayView)>,
                ArrangeError,
            >(None),
            Err(error) => selection(outputs@, primary_name@, name_view(*secondary_name)) == Err::<
                Option<(DisplayView, DisplayView)>,
                ArrangeError,
            >(error),
        },
{
    if count_active(outputs) <= 1 {
        return Ok(None);
    }
    let primary = match find_primary(outputs, primary_name) {
        Some(output) => match Display::new(output) {
            Ok(display) => display,
            Err(error) => {
                return Err(error);
            },
        },
        None => {
            return Err(ArrangeError::OutputNotFound(Role::Primary));
        },
    };
    let secondary = match find_secondary(outputs, primary_name, secondary_name) {
        Some(output) => match Display::new(output) {
            Ok(display) => display,
            Err(error) => {
                return Err(error);
            },
        },
        None => {
            return Err(ArrangeError::OutputNotFound(Role::Secondary));
        },
    };
    Ok(Some((primary, secondary)))
}

/// Works out the commands that put the secondary output `orientation` of the
/// primary one.
///
/// The primary output is the first active output named `main_output_name`; the
/// secondary output is the first other active output, or the first one named
/// `secondary_output_name` where that is given. The result holds the command
/// for the primary output and then the command for the secondary one, or no
/// command at all where fewer than two outputs are active.
pub fn arrange_outputs(
    outputs: &Vec<Output>,
    main_output_name: String,
    orientation: Orientation,
    secondary_output_name: Option<String>,
) -> (result: Result<Vec<String>, ArrangeError>)
    ensures
        match result {
            Ok(commands) => arrangement(
                outputs@,
                main_output_name@,
                orientation,
                name_view(secondary_output_name),
            ) == Ok::<Seq<Seq<char>>, ArrangeError>(commands.deep_view()),
            Err(error) => arrangement(
                outputs@,
                main_output_name@,
                orientation,
                name_view(secondary_output_name),
            ) == Err::<Seq<Seq<char>>, ArrangeError>(error),
        },
        active_count(outputs@) <= 1 ==> (result matches Ok(commands) && commands@.len() == 0),
{
    let mut commands: Vec<String> = Vec::new();
    match select_displays(outputs, &main_output_name, &secondary_output_name) {
        Err(error) => {
            return Err(error);
        },
        Ok(None) => {
            assert(commands.deep_view() =~= Seq::<Seq<char>>::empty());
        },
        Ok(Some((primary, secondary))) => {
            let mut primary_display = primary;
            let mut secondary_display = secondary;
            secondary_display.place(orientation, &mut primary_display);
            commands.push(primary_display.to_command_str());
            commands.push(secondary_display.to_command_str());
            assert(commands.deep_view() =~= seq![
                command_text(primary_display@),
                command_text(secondary_display@),
            ]);
        },
    }
    Ok(commands)
}

} // verus!
