//! The journey's control decisions: from the recorded journey state and
//! the curriculum, which step comes next.  The surrounding program loops,
//! performs the chosen step (lessons, prompts, resets) and records the
//! result back through the tracker.

use vstd::prelude::*;
use crate::curriculum::Curriculum;
use crate::tracker::Tracker;

verus! {

/// The next thing the journey loop should do.
pub enum JourneyStep {
    /// No journey has been started.
    NoJourney,
    /// The recorded stage lies past the curriculum: the journey is done.
    Completed,
    /// Every topic of the current stage is done; `next_exists` says
    /// whether another stage follows.
    StageComplete { next_exists: bool },
    /// Present the topic at this stage and topic index.
    NextTopic { stage_index: usize, topic_index: usize },
}

pub struct JourneyManager {
    pub tracker: Tracker,
}

impl JourneyManager {
    /// A journey manager over fresh progress.
    pub fn new() -> (r: JourneyManager)
        ensures
            r.tracker.progress.journey_progress is None,
    {
        JourneyManager { tracker: Tracker::from_progress(Default::default()) }
    }

    /// A journey manager over loaded progress.
    pub fn from_tracker(tracker: Tracker) -> (r: JourneyManager)
        ensures
            r.tracker == tracker,
    {
        JourneyManager { tracker }
    }

    /// Decides the next step of the journey against a curriculum.
    pub fn next_step(&self, curriculum: &Curriculum) -> (r: JourneyStep)
        ensures
            ({
                match self.tracker.progress.journey_progress {
                    None => r is NoJourney,
                    Some(j) => {
                        if j.current_stage >= curriculum.stages@.len() {
                            r is Completed
                        } else if j.current_topic_index
                            >= curriculum.stages@[j.current_stage as int].topics@.len() {
                            r matches JourneyStep::StageComplete { next_exists } && next_exists
                                == (j.current_stage + 1 < curriculum.stages@.len())
                        } else {
                            r matches JourneyStep::NextTopic { stage_index, topic_index }
                                && stage_index == j.current_stage && topic_index
                                == j.current_topic_index
                        }
                    },
                }
            }),
    {
        match &self.tracker.progress.journey_progress {
            None => JourneyStep::NoJourney,
            Some(j) => {
                if j.current_stage >= curriculum.stages.len() {
                    JourneyStep::Completed
                } else if j.current_topic_index >= curriculum.stages[j.current_stage].topics.len() {
                    JourneyStep::StageComplete {
                        next_exists: j.current_stage + 1 < curriculum.stages.len(),
                    }
                } else {
                    JourneyStep::NextTopic {
                        stage_index: j.current_stage,
                        topic_index: j.current_topic_index,
                    }
                }
            },
        }
    }
}

} // verus!
