use vstd::prelude::*;

use crate::text::str_equal;

verus! {

/// The moments at which the timer plays a sound.
#[derive(Debug, Clone, Copy, PartialEq, Eq, Hash, Structural)]
pub enum SoundEvent {
    WorkEnd,
    BreakEnd,
    Finish,
    Countdown,
    /// A beep of the countdown; always the default beep.
    CountdownBeep,
}

impl SoundEvent {
    /// The directory under the sounds directory that holds the event's own
    /// sound; empty for the countdown beep, which has none.
    pub open spec fn spec_directory_name(self) -> Seq<char> {
        match self {
            SoundEvent::WorkEnd => "work_end"@,
            SoundEvent::BreakEnd => "break_end"@,
            SoundEvent::Finish => "at_finish"@,
            SoundEvent::Countdown => "countdown"@,
            SoundEvent::CountdownBeep => ""@,
        }
    }

    /// The events that may have a sound of their own, in loading order.
    pub open spec fn spec_all_events() -> Seq<SoundEvent> {
        seq![SoundEvent::WorkEnd, SoundEvent::BreakEnd, SoundEvent::Finish, SoundEvent::Countdown]
    }

    pub fn directory_name(&self) -> (name: &'static str)
        ensures
            name@ == self.spec_directory_name(),
    {
        match self {
            SoundEvent::WorkEnd => "work_end",
            SoundEvent::BreakEnd => "break_end",
            SoundEvent::Finish => "at_finish",
            SoundEvent::Countdown => "countdown",
            SoundEvent::CountdownBeep => "",
        }
    }

    pub fn all_events() -> (events: Vec<SoundEvent>)
        ensures
            events@ == Self::spec_all_events(),
    {
        let mut events = Vec::new();
        events.push(SoundEvent::WorkEnd);
        events.push(SoundEvent::BreakEnd);
        events.push(SoundEvent::Finish);
        events.push(SoundEvent::Countdown);
        assert(events@ =~= Self::spec_all_events());
        events
    }
}

/// Whether a file's extension (if it has one) is `ext`.
pub open spec fn has_extension(file_ext: Option<String>, ext: Seq<char>) -> bool {
    file_ext matches Some(e) && e@ == ext
}

/// Whether some file of the listing has extension `ext`.
pub open spec fn any_with_extension(exts: Seq<Option<String>>, ext: Seq<char>) -> bool {
    exists|i: int| 0 <= i < exts.len() && has_extension(#[trigger] exts[i], ext)
}

/// Whether `i` is the first file of the listing with extension `ext`.
pub open spec fn first_with_extension(exts: Seq<Option<String>>, ext: Seq<char>, i: int) -> bool {
    &&& 0 <= i < exts.len()
    &&& has_extension(exts[i], ext)
    &&& forall|j: int| 0 <= j < i ==> !has_extension(#[trigger] exts[j], ext)
}

/// The first file of the listing with extension `ext`, if any.
fn first_index_with(exts: &Vec<Option<String>>, ext: &str) -> (r: Option<usize>)
    ensures
        r matches Some(i) ==> first_with_extension(exts@, ext@, i as int),
        r is None ==> !any_with_extension(exts@, ext@),
{
    let mut i: usize = 0;
    while i < exts.len()
        invariant
            i <= exts.len(),
            forall|j: int| 0 <= j < i ==> !has_extension(#[trigger] exts@[j], ext@),
        decreases exts.len() - i,
    {
        match &exts[i] {
            Some(e) => {
                if str_equal(e.as_str(), ext) {
                    return Some(i);
                }
            },
            None => {},
        }
        i = i + 1;
    }
    None
}

/// Picks the sound file for `event` out of the extensions of the files in
/// its directory, in listing order: the first `.wav` file, else the first
/// `.mp3` file. The countdown beep never has a file of its own.
pub fn find_sound_file(event: SoundEvent, extensions: &Vec<Option<String>>) -> (r: Option<usize>)
    ensures
        event == SoundEvent::CountdownBeep ==> r is None,
        event != SoundEvent::CountdownBeep ==> {
            &&& any_with_extension(extensions@, "wav"@) ==> (r matches Some(i)
                && first_with_extension(extensions@, "wav"@, i as int))
            &&& (!any_with_extension(extensions@, "wav"@) && any_with_extension(extensions@, "mp3"@))
                ==> (r matches Some(i) && first_with_extension(extensions@, "mp3"@, i as int))
            &&& (!any_with_extension(extensions@, "wav"@) && !any_with_extension(extensions@, "mp3"@))
                ==> r is None
        },
{
    if event == SoundEvent::CountdownBeep {
        return None;
    }
    match first_index_with(extensions, "wav") {
        Some(i) => Some(i),
        None => first_index_with(extensions, "mp3"),
    }
}

} // verus!
