//! The quiz state machine: a fixed list of multiple-choice questions, a
//! current-question index, a running score, and an optional player name.
//!
//! The controller owns the only mutable state and exposes the only legal
//! transitions: `answer` scores and advances, `submit_name` replaces the
//! name, `restart` returns to the initial state, and `display_summary`
//! derives the score line shown to the player.

use vstd::prelude::*;

use crate::text::dec_rep;
use crate::text::push_decimal;

verus! {

/// One multiple-choice question: a prompt, the answer options in display
/// order, and the index of the correct option.
pub struct Question {
    pub prompt: String,
    pub options: Vec<String>,
    pub answer: usize,
}

impl Clone for Question {
    /// A clone carries the same prompt, options, and correct index.
    fn clone(&self) -> (r: Question)
        ensures
            r@ == self@,
    {
        let r = Question {
            prompt: self.prompt.clone(),
            options: self.options.clone(),
            answer: self.answer,
        };
        proof {
            assert(r.options.deep_view() =~= self.options.deep_view());
            assert(r@ =~= self@);
        }
        r
    }
}

/// The mathematical content of a `Question`.
#[verifier::ext_equal]
pub ghost struct QuestionView {
    pub prompt: Seq<char>,
    pub options: Seq<Seq<char>>,
    pub answer: int,
}

impl QuestionView {
    /// A question is well formed when it offers at least two options and
    /// its correct answer picks one of them.
    pub open spec fn wf(self) -> bool {
        2 <= self.options.len() && 0 <= self.answer < self.options.len()
    }
}

impl View for Question {
    type V = QuestionView;

    open spec fn view(&self) -> QuestionView {
        QuestionView {
            prompt: self.prompt@,
            options: self.options.deep_view(),
            answer: self.answer as int,
        }
    }
}

/// The mathematical content of a `QuizController`: the question list and
/// the three mutable state cells.
#[verifier::ext_equal]
pub ghost struct QuizView {
    pub questions: Seq<QuestionView>,
    pub current: int,
    pub score: int,
    pub name: Seq<char>,
}

impl QuizView {
    /// Every question is well formed, and the score never runs ahead of the
    /// number of questions answered, which never runs past the end of the
    /// list.
    pub open spec fn wf(self) -> bool {
        &&& forall|i: int|
            0 <= i < self.questions.len() ==> (#[trigger] self.questions[i]).wf()
        &&& 0 <= self.score <= self.current <= self.questions.len()
    }

    /// How many questions the quiz asks.
    pub open spec fn question_count(self) -> int {
        self.questions.len() as int
    }

    /// The quiz is complete once every question has been answered.
    pub open spec fn is_complete(self) -> bool {
        self.current == self.questions.len()
    }

    /// The state a fresh controller starts in: first question, zero score,
    /// empty name.
    pub open spec fn fresh(questions: Seq<QuestionView>) -> QuizView {
        QuizView { questions, current: 0, score: 0, name: Seq::empty() }
    }

    /// What answering with option `pick` does: while the quiz is in
    /// progress, a matching pick scores one point and the quiz advances one
    /// question either way; once complete, answering changes nothing.
    pub open spec fn answer_step(self, pick: int) -> QuizView {
        if self.current < self.questions.len() {
            QuizView {
                current: self.current + 1,
                score: if pick == self.questions[self.current].answer {
                    self.score + 1
                } else {
                    self.score
                },
                ..self
            }
        } else {
            self
        }
    }

    /// What submitting a name does: the name is replaced verbatim and
    /// nothing else changes.
    pub open spec fn with_name(self, name: Seq<char>) -> QuizView {
        QuizView { name, ..self }
    }

    /// What restarting does: back to the fresh state over the same
    /// questions.
    pub open spec fn restarted(self) -> QuizView {
        QuizView::fresh(self.questions)
    }

    /// The summary line: `"Score: {score}/{count}"`, prefixed by
    /// `"{name}'s "` once a non-empty name has been entered.
    pub open spec fn summary(self) -> Seq<char> {
        if self.name.len() == 0 {
            "Score: "@ + dec_rep(self.score) + "/"@ + dec_rep(self.question_count())
        } else {
            self.name + "'s Score: "@ + dec_rep(self.score) + "/"@ + dec_rep(
                self.question_count(),
            )
        }
    }
}

/// The quiz controller: owns the immutable question list and the mutable
/// quiz state, and exposes the only legal transitions.
pub struct QuizController {
    questions: Vec<Question>,
    current: usize,
    score: usize,
    name: String,
}

impl View for QuizController {
    type V = QuizView;

    closed spec fn view(&self) -> QuizView {
        QuizView {
            questions: self.questions@.map_values(|q: Question| q@),
            current: self.current as int,
            score: self.score as int,
            name: self.name@,
        }
    }
}

impl Clone for QuizController {
    /// A clone carries the same questions, progress, score, and name.
    fn clone(&self) -> (r: QuizController)
        ensures
            r@ == self@,
    {
        proof {
            use_type_invariant(&*self);
        }
        let questions = self.questions.clone();
        proof {
            assert forall|i: int| 0 <= i < questions@.len() implies (#[trigger] questions@[i])@
                == self.questions@[i]@ by {
                assert(cloned::<Question>(self.questions@[i], questions@[i]));
            }
            assert(questions@.map_values(|q: Question| q@) =~= self.questions@.map_values(
                |q: Question| q@,
            ));
        }
        let r = QuizController {
            questions,
            current: self.current,
            score: self.score,
            name: self.name.clone(),
        };
        proof {
            assert(r@ =~= self@);
        }
        r
    }
}

impl QuizController {
    #[verifier::type_invariant]
    spec fn inv(self) -> bool {
        self@.wf()
    }

    /// A fresh controller over `questions`: at the first question, with
    /// zero score and an empty name.
    pub fn new(questions: Vec<Question>) -> (r: QuizController)
        requires
            forall|i: int| 0 <= i < questions@.len() ==> (#[trigger] questions@[i])@.wf(),
        ensures
            r@ == QuizView::fresh(questions@.map_values(|q: Question| q@)),
    {
        let r = QuizController { questions, current: 0, score: 0, name: String::new() };
        proof {
            assert(r@ =~= QuizView::fresh(r.questions@.map_values(|q: Question| q@)));
        }
        r
    }

    /// Answer the current question with the option at `option_index`.
    ///
    /// While the quiz is in progress this scores one point exactly when
    /// `option_index` is the current question's correct index (an
    /// out-of-range index simply never matches) and advances to the next
    /// question either way; once complete it is a no-op.
    pub fn answer(&mut self, option_index: usize)
        ensures
            final(self)@ == old(self)@.answer_step(option_index as int),
    {
        proof {
            use_type_invariant(&*self);
        }
        if self.current < self.questions.len() {
            let correct = option_index == self.questions[self.current].answer;
            self.current = self.current + 1;
            if correct {
                self.score = self.score + 1;
            }
        }
        proof {
            assert(self@ =~= old(self)@.answer_step(option_index as int));
        }
    }

    /// Replace the entered name with `raw_text`, verbatim: no trimming, no
    /// validation, and the empty string is valid. Nothing else changes.
    pub fn submit_name(&mut self, raw_text: String)
        ensures
            final(self)@ == old(self)@.with_name(raw_text@),
    {
        proof {
            use_type_invariant(&*self);
        }
        self.name = raw_text;
        proof {
            assert(self@ =~= old(self)@.with_name(self.name@));
        }
    }

    /// Return to the initial state: first question, zero score, empty name.
    /// The question list is kept as it is.
    pub fn restart(&mut self)
        ensures
            final(self)@ == old(self)@.restarted(),
    {
        proof {
            use_type_invariant(&*self);
        }
        self.score = 0;
        self.current = 0;
        self.name = String::new();
        proof {
            assert(self@ =~= old(self)@.restarted());
        }
    }

    /// The derived score line: `"Score: {score}/{count}"`, or
    /// `"{name}'s Score: {score}/{count}"` once a non-empty name has been
    /// entered. Pure: the state is not changed.
    pub fn display_summary(&self) -> (r: String)
        ensures
            r@ == self@.summary(),
    {
        let mut out = String::new();
        if self.name.as_str().is_empty() {
            out.append("Score: ");
        } else {
            out.append(self.name.as_str());
            out.append("'s Score: ");
        }
        push_decimal(&mut out, self.score);
        out.append("/");
        push_decimal(&mut out, self.questions.len());
        proof {
            assert(out@ =~= self@.summary());
        }
        out
    }

    /// The index of the question now being asked; equal to the question
    /// count once the quiz is complete.
    pub fn current_index(&self) -> (r: usize)
        ensures
            r as int == self@.current,
    {
        self.current
    }

    /// How many answers so far were correct.
    pub fn score(&self) -> (r: usize)
        ensures
            r as int == self@.score,
    {
        self.score
    }

    /// The name entered so far; empty until one is submitted.
    pub fn entered_name(&self) -> (r: &String)
        ensures
            r@ == self@.name,
    {
        &self.name
    }

    /// How many questions the quiz asks.
    pub fn question_count(&self) -> (r: usize)
        ensures
            r as int == self@.question_count(),
    {
        self.questions.len()
    }

    /// Whether every question has been answered.
    pub fn is_complete(&self) -> (r: bool)
        ensures
            r == self@.is_complete(),
    {
        proof {
            use_type_invariant(&*self);
        }
        self.current >= self.questions.len()
    }

    /// A fresh controller over the built-in question set.
    pub fn with_default_questions() -> (r: QuizController)
        ensures
            r@ == QuizView::fresh(default_set()),
    {
        QuizController::new(default_questions())
    }

    /// The question now being asked, or `None` once the quiz is complete.
    pub fn current_question(&self) -> (r: Option<&Question>)
        ensures
            match r {
                Some(q) => self@.current < self@.questions.len() && q@ == self@.questions[self@.current],
                None => self@.is_complete(),
            },
    {
        proof {
            use_type_invariant(&*self);
        }
        if self.current < self.questions.len() {
            Some(&self.questions[self.current])
        } else {
            None
        }
    }
}

/// How a sequence of answer picks, applied in order, transforms a quiz
/// state.
pub open spec fn run_answers(v: QuizView, picks: Seq<int>) -> QuizView
    decreases picks.len(),
{
    if picks.len() == 0 {
        v
    } else {
        run_answers(v.answer_step(picks[0]), picks.drop_first())
    }
}

/// Answering preserves well-formedness, keeps the question list, never
/// moves the quiz backwards, and raises the score by at most one.
pub proof fn lemma_answer_step_wf(v: QuizView, pick: int)
    requires
        v.wf(),
    ensures
        v.answer_step(pick).wf(),
        v.answer_step(pick).questions == v.questions,
        v.current <= v.answer_step(pick).current <= v.current + 1,
        v.score <= v.answer_step(pick).score <= v.score + 1,
{
}

/// Over any sequence of answers from a well-formed state, the state stays
/// well formed, the question list is kept, and the score grows by at most
/// the number of answers given.
pub proof fn lemma_run_answers_score(v: QuizView, picks: Seq<int>)
    requires
        v.wf(),
    ensures
        run_answers(v, picks).wf(),
        run_answers(v, picks).questions == v.questions,
        run_answers(v, picks).score <= v.score + picks.len(),
    decreases picks.len(),
{
    if picks.len() > 0 {
        lemma_answer_step_wf(v, picks[0]);
        lemma_run_answers_score(v.answer_step(picks[0]), picks.drop_first());
    }
}

/// Law: from a fresh controller, however the questions are answered, the
/// score never exceeds the number of `answer` calls made and never exceeds
/// the number of questions.
pub proof fn lemma_score_never_exceeds(questions: Seq<QuestionView>, picks: Seq<int>)
    requires
        forall|i: int| 0 <= i < questions.len() ==> (#[trigger] questions[i]).wf(),
    ensures
        run_answers(QuizView::fresh(questions), picks).score <= picks.len(),
        run_answers(QuizView::fresh(questions), picks).score <= questions.len(),
{
    lemma_run_answers_score(QuizView::fresh(questions), picks);
}

/// Law: restarting twice in a row yields the same state as restarting once.
pub proof fn lemma_restart_idempotent(v: QuizView)
    ensures
        v.restarted().restarted() == v.restarted(),
{
}

/// Law: submitting a name and then reading it back yields exactly that
/// name, and nothing else of the state changes.
pub proof fn lemma_submit_name_round_trip(v: QuizView, entered: Seq<char>)
    ensures
        v.with_name(entered).name == entered,
        v.with_name(entered).questions == v.questions,
        v.with_name(entered).current == v.current,
        v.with_name(entered).score == v.score,
{
}

/// The built-in question set, as mathematical values: three general-knowledge
/// questions with four options each.
pub open spec fn default_set() -> Seq<QuestionView> {
    seq![
        QuestionView {
            prompt: "What is the capital of France?"@,
            options: seq!["Berlin"@, "Madrid"@, "Paris"@, "Lisbon"@],
            answer: 2,
        },
        QuestionView {
            prompt: "Which is the largest planet?"@,
            options: seq!["Earth"@, "Jupiter"@, "Mars"@, "Venus"@],
            answer: 1,
        },
        QuestionView {
            prompt: "Who wrote '1984'?"@,
            options: seq!["Orwell"@, "Shakespeare"@, "Dickens"@, "Austen"@],
            answer: 0,
        },
    ]
}

/// The built-in question set, built as executable values.
pub fn default_questions() -> (r: Vec<Question>)
    ensures
        r@.map_values(|q: Question| q@) == default_set(),
        forall|i: int| 0 <= i < r@.len() ==> (#[trigger] r@[i])@.wf(),
{
    let mut r: Vec<Question> = Vec::new();

    let mut opts: Vec<String> = Vec::new();
    opts.push(String::from_str("Berlin"));
    opts.push(String::from_str("Madrid"));
    opts.push(String::from_str("Paris"));
    opts.push(String::from_str("Lisbon"));
    r.push(
        Question {
            prompt: String::from_str("What is the capital of France?"),
            options: opts,
            answer: 2,
        },
    );

    let mut opts: Vec<String> = Vec::new();
    opts.push(String::from_str("Earth"));
    opts.push(String::from_str("Jupiter"));
    opts.push(String::from_str("Mars"));
    opts.push(String::from_str("Venus"));
    r.push(
        Question {
            prompt: String::from_str("Which is the largest planet?"),
            options: opts,
            answer: 1,
        },
    );

    let mut opts: Vec<String> = Vec::new();
    opts.push(String::from_str("Orwell"));
    opts.push(String::from_str("Shakespeare"));
    opts.push(String::from_str("Dickens"));
    opts.push(String::from_str("Austen"));
    r.push(Question { prompt: String::from_str("Who wrote '1984'?"), options: opts, answer: 0 });

    proof {
        assert(r@.map_values(|q: Question| q@) =~~= default_set());
    }
    r
}

} // verus!
