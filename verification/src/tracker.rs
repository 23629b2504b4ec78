//! Progress bookkeeping: the on-record state of lessons and the learning
//! journey, with every transition a pure, verified update of an in-memory
//! [`Progress`] value.  Reading and writing the progress file, and the
//! clock, belong to the surrounding program, which passes timestamps in.

use vstd::prelude::*;
use crate::config::{Difficulty, Language, LessonType};
use crate::text::{copy_bytes, dec_spec, u64_to_dec};

verus! {

pub struct LessonRecord {
    pub language: Language,
    pub difficulty: Difficulty,
    pub lesson_type: LessonType,
    pub topic: Vec<u8>,
    pub completed_at: Vec<u8>,
}

pub struct LessonState {
    pub language: Language,
    pub difficulty: Difficulty,
    pub lesson_type: LessonType,
    pub topic: Vec<u8>,
    pub current_exercise: usize,
    pub total_exercises: usize,
}

/// Completion counters, keyed by language and by difficulty.  The key
/// lists hold each key at most once.
pub struct Statistics {
    pub total_lessons_completed: u64,
    pub lessons_by_language: Vec<(Language, u64)>,
    pub lessons_by_difficulty: Vec<(Difficulty, u64)>,
}

pub struct JourneyProgress {
    pub language: Language,
    pub current_stage: usize,
    pub current_topic_index: usize,
    pub completed_topics: Vec<Vec<u8>>,
    pub started_at: Vec<u8>,
}

pub struct Progress {
    pub completed_lessons: Vec<LessonRecord>,
    pub current_lesson: Option<LessonState>,
    pub statistics: Statistics,
    pub journey_progress: Option<JourneyProgress>,
}

/// A counter incremented without wrapping: the count saturates instead
/// of overflowing.
pub open spec fn inc64(x: u64) -> u64 {
    if x == u64::MAX {
        x
    } else {
        (x + 1) as u64
    }
}

pub open spec fn inc_usize(x: usize) -> usize {
    if x == usize::MAX {
        x
    } else {
        (x + 1) as usize
    }
}

/// The count recorded for a language key, zero when absent.
pub open spec fn lang_count(list: Seq<(Language, u64)>, key: Language) -> u64
    decreases list.len(),
{
    if list.len() == 0 {
        0
    } else if list[0].0 == key {
        list[0].1
    } else {
        lang_count(list.drop_first(), key)
    }
}

/// The list with the count of `key` incremented, the entry appended when
/// absent; all other entries unchanged.
pub open spec fn lang_bump(list: Seq<(Language, u64)>, key: Language) -> Seq<(Language, u64)>
    decreases list.len(),
{
    if list.len() == 0 {
        seq![(key, 1u64)]
    } else if list[0].0 == key {
        seq![(key, inc64(list[0].1))] + list.drop_first()
    } else {
        seq![list[0]] + lang_bump(list.drop_first(), key)
    }
}

pub open spec fn diff_count(list: Seq<(Difficulty, u64)>, key: Difficulty) -> u64
    decreases list.len(),
{
    if list.len() == 0 {
        0
    } else if list[0].0 == key {
        list[0].1
    } else {
        diff_count(list.drop_first(), key)
    }
}

pub open spec fn diff_bump(list: Seq<(Difficulty, u64)>, key: Difficulty) -> Seq<(Difficulty, u64)>
    decreases list.len(),
{
    if list.len() == 0 {
        seq![(key, 1u64)]
    } else if list[0].0 == key {
        seq![(key, inc64(list[0].1))] + list.drop_first()
    } else {
        seq![list[0]] + diff_bump(list.drop_first(), key)
    }
}

/// Increments the counter of `key`, inserting it when absent.
fn bump_language(list: Vec<(Language, u64)>, key: Language) -> (r: Vec<(Language, u64)>)
    ensures
        r@ == lang_bump(list@, key),
    decreases list@.len(),
{
    let mut rest = list;
    if rest.len() == 0 {
        rest.push((key, 1));
        proof {
            assert(rest@ =~= seq![(key, 1u64)]);
        }
        rest
    } else {
        let head: (Language, u64) = rest.remove(0);
        let ghost tail = rest@;
        if head.0 == key {
            let c: u64 = if head.1 == u64::MAX {
                head.1
            } else {
                head.1 + 1
            };
            let mut out: Vec<(Language, u64)> = Vec::new();
            out.push((key, c));
            out.append(&mut rest);
            proof {
                assert(out@ =~= seq![(key, inc64(head.1))] + tail);
            }
            out
        } else {
            let bumped = bump_language(rest, key);
            let mut out: Vec<(Language, u64)> = Vec::new();
            out.push(head);
            let mut b = bumped;
            out.append(&mut b);
            proof {
                assert(out@ =~= seq![head] + lang_bump(tail, key));
            }
            out
        }
    }
}

/// Increments the counter of `key`, inserting it when absent.
fn bump_difficulty(list: Vec<(Difficulty, u64)>, key: Difficulty) -> (r: Vec<(Difficulty, u64)>)
    ensures
        r@ == diff_bump(list@, key),
    decreases list@.len(),
{
    let mut rest = list;
    if rest.len() == 0 {
        rest.push((key, 1));
        proof {
            assert(rest@ =~= seq![(key, 1u64)]);
        }
        rest
    } else {
        let head: (Difficulty, u64) = rest.remove(0);
        let ghost tail = rest@;
        if head.0 == key {
            let c: u64 = if head.1 == u64::MAX {
                head.1
            } else {
                head.1 + 1
            };
            let mut out: Vec<(Difficulty, u64)> = Vec::new();
            out.push((key, c));
            out.append(&mut rest);
            proof {
                assert(out@ =~= seq![(key, inc64(head.1))] + tail);
            }
            out
        } else {
            let bumped = bump_difficulty(rest, key);
            let mut out: Vec<(Difficulty, u64)> = Vec::new();
            out.push(head);
            let mut b = bumped;
            out.append(&mut b);
            proof {
                assert(out@ =~= seq![head] + diff_bump(tail, key));
            }
            out
        }
    }
}

impl Default for Progress {
    fn default() -> (r: Progress)
        ensures
            r.completed_lessons@.len() == 0,
            r.current_lesson is None,
            r.statistics.total_lessons_completed == 0,
            r.statistics.lessons_by_language@.len() == 0,
            r.statistics.lessons_by_difficulty@.len() == 0,
            r.journey_progress is None,
    {
        Progress {
            completed_lessons: Vec::new(),
            current_lesson: None,
            statistics: Statistics {
                total_lessons_completed: 0,
                lessons_by_language: Vec::new(),
                lessons_by_difficulty: Vec::new(),
            },
            journey_progress: None,
        }
    }
}

/// The tracker holds the progress state; the surrounding program loads
/// it from and saves it to the progress file around each operation.
pub struct Tracker {
    pub progress: Progress,
}

impl Tracker {
    /// A tracker over existing progress state.
    pub fn from_progress(progress: Progress) -> (r: Tracker)
        ensures
            r.progress == progress,
    {
        Tracker { progress }
    }

    /// Records the start of a lesson.
    pub fn start_lesson(
        &mut self,
        language: Language,
        difficulty: Difficulty,
        lesson_type: LessonType,
        topic: Vec<u8>,
        total_exercises: usize,
    )
        ensures
            final(self).progress.current_lesson matches Some(st) && st.language == language
                && st.difficulty == difficulty && st.lesson_type == lesson_type && st.topic@
                == topic@ && st.current_exercise == 0 && st.total_exercises == total_exercises,
            final(self).progress.completed_lessons == old(self).progress.completed_lessons,
            final(self).progress.statistics == old(self).progress.statistics,
            final(self).progress.journey_progress == old(self).progress.journey_progress,
    {
        self.progress.current_lesson = Some(
            LessonState {
                language,
                difficulty,
                lesson_type,
                topic,
                current_exercise: 0,
                total_exercises,
            },
        );
    }

    /// Advances the exercise counter of the lesson in flight, if any.
    pub fn complete_exercise(&mut self)
        ensures
            old(self).progress.current_lesson matches Some(st)
                ==> (final(self).progress.current_lesson matches Some(st2) && st2.language == st.language
                && st2.difficulty == st.difficulty && st2.lesson_type == st.lesson_type
                && st2.topic == st.topic && st2.total_exercises == st.total_exercises
                && st2.current_exercise == inc_usize(st.current_exercise)),
            old(self).progress.current_lesson is None ==> final(self).progress.current_lesson
                is None,
            final(self).progress.completed_lessons == old(self).progress.completed_lessons,
            final(self).progress.statistics == old(self).progress.statistics,
            final(self).progress.journey_progress == old(self).progress.journey_progress,
    {
        let lesson = self.progress.current_lesson.take();
        match lesson {
            Some(st) => {
                let next: usize = if st.current_exercise == usize::MAX {
                    st.current_exercise
                } else {
                    st.current_exercise + 1
                };
                self.progress.current_lesson = Some(
                    LessonState {
                        language: st.language,
                        difficulty: st.difficulty,
                        lesson_type: st.lesson_type,
                        topic: st.topic,
                        current_exercise: next,
                        total_exercises: st.total_exercises,
                    },
                );
            },
            None => {
                self.progress.current_lesson = None;
            },
        }
    }

    /// Completes the lesson in flight: appends a record stamped with
    /// `now_secs`, bumps the counters, and clears the current lesson.
    pub fn complete_lesson(&mut self, now_secs: u64)
        ensures
            final(self).progress.current_lesson is None,
            final(self).progress.journey_progress == old(self).progress.journey_progress,
            old(self).progress.current_lesson matches Some(st) ==> ({
                &&& final(self).progress.completed_lessons@.len() == old(self).progress.completed_lessons@.len() + 1
                &&& final(self).progress.completed_lessons@.last().language == st.language
                &&& final(self).progress.completed_lessons@.last().difficulty == st.difficulty
                &&& final(self).progress.completed_lessons@.last().lesson_type == st.lesson_type
                &&& final(self).progress.completed_lessons@.last().topic@ == st.topic@
                &&& final(self).progress.completed_lessons@.last().completed_at@ == dec_spec(
                    now_secs as nat,
                )
                &&& forall|i: int|
                    0 <= i < old(self).progress.completed_lessons@.len()
                        ==> final(self).progress.completed_lessons@[i] == old(self).progress.completed_lessons@[i]
                &&& final(self).progress.statistics.total_lessons_completed == inc64(
                    old(self).progress.statistics.total_lessons_completed,
                )
                &&& final(self).progress.statistics.lessons_by_language@ == lang_bump(
                    old(self).progress.statistics.lessons_by_language@,
                    st.language,
                )
                &&& final(self).progress.statistics.lessons_by_difficulty@ == diff_bump(
                    old(self).progress.statistics.lessons_by_difficulty@,
                    st.difficulty,
                )
            }),
            old(self).progress.current_lesson is None ==> ({
                &&& final(self).progress.completed_lessons == old(self).progress.completed_lessons
                &&& final(self).progress.statistics == old(self).progress.statistics
            }),
    {
        let lesson = self.progress.current_lesson.take();
        match lesson {
            Some(st) => {
                let record = LessonRecord {
                    language: st.language,
                    difficulty: st.difficulty,
                    lesson_type: st.lesson_type,
                    topic: copy_bytes(&st.topic),
                    completed_at: u64_to_dec(now_secs),
                };
                self.progress.completed_lessons.push(record);
                let total: u64 = self.progress.statistics.total_lessons_completed;
                self.progress.statistics.total_lessons_completed = if total == u64::MAX {
                    total
                } else {
                    total + 1
                };
                let mut langs: Vec<(Language, u64)> = Vec::new();
                core::mem::swap(&mut langs, &mut self.progress.statistics.lessons_by_language);
                self.progress.statistics.lessons_by_language = bump_language(langs, st.language);
                let mut diffs: Vec<(Difficulty, u64)> = Vec::new();
                core::mem::swap(&mut diffs, &mut self.progress.statistics.lessons_by_difficulty);
                self.progress.statistics.lessons_by_difficulty = bump_difficulty(
                    diffs,
                    st.difficulty,
                );
            },
            None => {
                self.progress.current_lesson = None;
            },
        }
    }

    /// Starts a fresh journey in the given language, stamped `now_secs`.
    pub fn start_journey(&mut self, language: Language, now_secs: u64)
        ensures
            final(self).progress.journey_progress matches Some(j) && j.language == language
                && j.current_stage == 0 && j.current_topic_index == 0 && j.completed_topics@.len()
                == 0 && j.started_at@ == dec_spec(now_secs as nat),
            final(self).progress.completed_lessons == old(self).progress.completed_lessons,
            final(self).progress.current_lesson == old(self).progress.current_lesson,
            final(self).progress.statistics == old(self).progress.statistics,
    {
        self.progress.journey_progress = Some(
            JourneyProgress {
                language,
                current_stage: 0,
                current_topic_index: 0,
                completed_topics: Vec::new(),
                started_at: u64_to_dec(now_secs),
            },
        );
    }

    /// A copy of the journey state, if any.
    pub fn get_journey_progress(&self) -> (r: Option<JourneyProgress>)
        ensures
            r is Some <==> self.progress.journey_progress is Some,
            r matches Some(j) ==> ({
                let cur = self.progress.journey_progress->0;
                &&& j.language == cur.language
                &&& j.current_stage == cur.current_stage
                &&& j.current_topic_index == cur.current_topic_index
                &&& crate::content::texts_view(j.completed_topics@) == crate::content::texts_view(
                    cur.completed_topics@,
                )
                &&& j.started_at@ == cur.started_at@
            }),
    {
        match &self.progress.journey_progress {
            None => None,
            Some(j) => {
                let mut topics: Vec<Vec<u8>> = Vec::new();
                let n: usize = j.completed_topics.len();
                let mut i: usize = 0;
                while i < n
                    invariant
                        i <= n,
                        n == j.completed_topics@.len(),
                        topics@.len() == i,
                        forall|k: int| 0 <= k < i ==> (#[trigger] topics@[k])@
                            == j.completed_topics@[k]@,
                    decreases n - i,
                {
                    topics.push(copy_bytes(&j.completed_topics[i]));
                    i += 1;
                }
                proof {
                    assert(crate::content::texts_view(topics@) =~= crate::content::texts_view(
                        j.completed_topics@,
                    ));
                }
                Some(
                    JourneyProgress {
                        language: j.language,
                        current_stage: j.current_stage,
                        current_topic_index: j.current_topic_index,
                        completed_topics: topics,
                        started_at: copy_bytes(&j.started_at),
                    },
                )
            },
        }
    }

    /// Records a completed journey lesson: moves the stage marker and
    /// adds the title to the completed list unless already present.
    pub fn complete_journey_lesson(&mut self, lesson_index: usize, lesson_title: Vec<u8>)
        ensures
            old(self).progress.journey_progress matches Some(j)
                ==> (final(self).progress.journey_progress matches Some(j2) && j2.language == j.language
                && j2.current_stage == lesson_index && j2.current_topic_index
                == j.current_topic_index && j2.started_at == j.started_at && ({
                let tv = crate::content::texts_view(j.completed_topics@);
                if tv.contains(lesson_title@) {
                    crate::content::texts_view(j2.completed_topics@) == tv
                } else {
                    crate::content::texts_view(j2.completed_topics@) == tv.push(lesson_title@)
                }
            })),
            old(self).progress.journey_progress is None ==> final(self).progress.journey_progress
                is None,
            final(self).progress.completed_lessons == old(self).progress.completed_lessons,
            final(self).progress.current_lesson == old(self).progress.current_lesson,
            final(self).progress.statistics == old(self).progress.statistics,
    {
        let journey = self.progress.journey_progress.take();
        match journey {
            None => {
                self.progress.journey_progress = None;
            },
            Some(j) => {
                let mut topics = j.completed_topics;
                let n: usize = topics.len();
                let mut found: bool = false;
                let mut i: usize = 0;
                while i < n
                    invariant
                        i <= n,
                        n == topics@.len(),
                        found == (exists|k: int|
                            0 <= k < i && (#[trigger] topics@[k])@ == lesson_title@),
                    decreases n - i,
                {
                    if crate::text::bytes_eq(topics[i].as_slice(), lesson_title.as_slice()) {
                        found = true;
                    }
                    i += 1;
                }
                proof {
                    let tv = crate::content::texts_view(topics@);
                    if found {
                        let k = choose|k: int|
                            0 <= k < n && (#[trigger] topics@[k])@ == lesson_title@;
                        assert(tv[k] == lesson_title@);
                        assert(tv.contains(lesson_title@));
                    } else {
                        if tv.contains(lesson_title@) {
                            let k = choose|k: int| 0 <= k < tv.len() && tv[k] == lesson_title@;
                            assert(topics@[k]@ == lesson_title@);
                        }
                    }
                }
                let ghost pre = topics@;
                if !found {
                    topics.push(lesson_title);
                    proof {
                        assert(crate::content::texts_view(topics@) =~= crate::content::texts_view(
                            pre,
                        ).push(topics@.last()@));
                    }
                }
                self.progress.journey_progress = Some(
                    JourneyProgress {
                        language: j.language,
                        current_stage: lesson_index,
                        current_topic_index: j.current_topic_index,
                        completed_topics: topics,
                        started_at: j.started_at,
                    },
                );
            },
        }
    }

    /// Clears the journey state.
    pub fn reset_journey(&mut self)
        ensures
            final(self).progress.journey_progress is None,
            final(self).progress.completed_lessons == old(self).progress.completed_lessons,
            final(self).progress.current_lesson == old(self).progress.current_lesson,
            final(self).progress.statistics == old(self).progress.statistics,
    {
        self.progress.journey_progress = None;
    }
}

} // verus!
