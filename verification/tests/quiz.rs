use quiz_app::quiz::default_questions;
use quiz_app::quiz::Question;
use quiz_app::quiz::QuizController;
use quiz_app::text::decimal_string;

#[test]
fn fresh_controller_state() {
    let c = QuizController::with_default_questions();
    assert_eq!(c.current_index(), 0);
    assert_eq!(c.score(), 0);
    assert_eq!(c.entered_name(), "");
    assert_eq!(c.question_count(), 3);
    assert!(!c.is_complete());
    assert_eq!(c.display_summary(), "Score: 0/3");
}

#[test]
fn default_question_content() {
    let qs = default_questions();
    assert_eq!(qs.len(), 3);
    assert_eq!(qs[0].prompt, "What is the capital of France?");
    assert_eq!(qs[0].options, vec!["Berlin", "Madrid", "Paris", "Lisbon"]);
    assert_eq!(qs[0].answer, 2);
    assert_eq!(qs[1].prompt, "Which is the largest planet?");
    assert_eq!(qs[1].options, vec!["Earth", "Jupiter", "Mars", "Venus"]);
    assert_eq!(qs[1].answer, 1);
    assert_eq!(qs[2].prompt, "Who wrote '1984'?");
    assert_eq!(qs[2].options, vec!["Orwell", "Shakespeare", "Dickens", "Austen"]);
    assert_eq!(qs[2].answer, 0);
}

#[test]
fn scenario_a_correct_answer_scores_and_advances() {
    let mut c = QuizController::with_default_questions();
    c.answer(2);
    assert_eq!(c.score(), 1);
    assert_eq!(c.current_index(), 1);
}

#[test]
fn scenario_b_incorrect_answer_advances_without_scoring() {
    let mut c = QuizController::with_default_questions();
    c.answer(2);
    c.answer(0);
    assert_eq!(c.score(), 1);
    assert_eq!(c.current_index(), 2);
}

#[test]
fn scenario_c_final_answer_completes_the_quiz() {
    let mut c = QuizController::with_default_questions();
    c.answer(2);
    c.answer(0);
    c.answer(0);
    assert_eq!(c.score(), 2);
    assert_eq!(c.current_index(), 3);
    assert!(c.is_complete());
    assert!(c.current_question().is_none());
}

#[test]
fn scenario_d_summary_with_name() {
    let mut c = QuizController::with_default_questions();
    c.answer(2);
    c.answer(0);
    c.answer(0);
    c.submit_name("Ada".to_string());
    assert_eq!(c.display_summary(), "Ada's Score: 2/3");
}

#[test]
fn scenario_e_restart_returns_to_fresh_state() {
    let mut c = QuizController::with_default_questions();
    c.answer(2);
    c.answer(0);
    c.answer(0);
    c.submit_name("Ada".to_string());
    c.restart();
    assert_eq!(c.current_index(), 0);
    assert_eq!(c.score(), 0);
    assert_eq!(c.entered_name(), "");
    assert!(!c.is_complete());
    assert_eq!(c.display_summary(), "Score: 0/3");
}

#[test]
fn restart_is_idempotent() {
    let mut c = QuizController::with_default_questions();
    c.answer(2);
    c.submit_name("Grace".to_string());
    c.restart();
    let once = (c.current_index(), c.score(), c.entered_name().clone(), c.display_summary());
    c.restart();
    let twice = (c.current_index(), c.score(), c.entered_name().clone(), c.display_summary());
    assert_eq!(once, twice);
}

#[test]
fn submit_name_round_trip() {
    let mut c = QuizController::with_default_questions();
    for s in ["", "Ada", "  spaced  ", "O'Brien \"quote\" /\\", "née Curie — 100%"] {
        c.submit_name(s.to_string());
        assert_eq!(c.entered_name(), s);
    }
}

#[test]
fn submit_name_replaces_wholesale() {
    let mut c = QuizController::with_default_questions();
    c.submit_name("first".to_string());
    c.submit_name("second".to_string());
    assert_eq!(c.entered_name(), "second");
    c.submit_name(String::new());
    assert_eq!(c.entered_name(), "");
    assert_eq!(c.display_summary(), "Score: 0/3");
}

#[test]
fn out_of_range_option_never_scores() {
    let mut c = QuizController::with_default_questions();
    c.answer(99);
    assert_eq!(c.score(), 0);
    assert_eq!(c.current_index(), 1);
}

#[test]
fn answer_after_complete_is_a_no_op() {
    let mut c = QuizController::with_default_questions();
    c.answer(2);
    c.answer(1);
    c.answer(0);
    assert!(c.is_complete());
    assert_eq!(c.score(), 3);
    c.answer(2);
    assert_eq!(c.score(), 3);
    assert_eq!(c.current_index(), 3);
}

#[test]
fn score_never_exceeds_calls_or_count() {
    let mut c = QuizController::with_default_questions();
    let mut calls: usize = 0;
    for pick in [2usize, 1, 0, 0, 1, 2, 3] {
        c.answer(pick);
        calls += 1;
        assert!(c.score() <= calls);
        assert!(c.score() <= c.question_count());
    }
}

#[test]
fn perfect_run_scores_every_question() {
    let mut c = QuizController::with_default_questions();
    c.answer(2);
    c.answer(1);
    c.answer(0);
    assert_eq!(c.score(), 3);
    assert_eq!(c.display_summary(), "Score: 3/3");
}

#[test]
fn current_question_follows_progress() {
    let mut c = QuizController::with_default_questions();
    assert_eq!(c.current_question().unwrap().prompt, "What is the capital of France?");
    c.answer(2);
    assert_eq!(c.current_question().unwrap().prompt, "Which is the largest planet?");
    c.answer(1);
    assert_eq!(c.current_question().unwrap().prompt, "Who wrote '1984'?");
    c.answer(0);
    assert!(c.current_question().is_none());
}

#[test]
fn controller_over_custom_questions() {
    let qs = vec![
        Question {
            prompt: "Smallest prime?".to_string(),
            options: vec!["1".to_string(), "2".to_string(), "3".to_string()],
            answer: 1,
        },
        Question {
            prompt: "Largest ocean?".to_string(),
            options: vec!["Atlantic".to_string(), "Pacific".to_string()],
            answer: 1,
        },
    ];
    let mut c = QuizController::new(qs);
    assert_eq!(c.question_count(), 2);
    assert_eq!(c.display_summary(), "Score: 0/2");
    c.answer(1);
    c.answer(1);
    assert!(c.is_complete());
    c.submit_name("Alan".to_string());
    assert_eq!(c.display_summary(), "Alan's Score: 2/2");
}

#[test]
fn cloned_controller_matches_original() {
    let mut c = QuizController::with_default_questions();
    c.answer(2);
    c.submit_name("Ada".to_string());
    let d = c.clone();
    assert_eq!(d.current_index(), c.current_index());
    assert_eq!(d.score(), c.score());
    assert_eq!(d.entered_name(), c.entered_name());
    assert_eq!(d.display_summary(), c.display_summary());
}

#[test]
fn decimal_string_exact_values() {
    assert_eq!(decimal_string(0), "0");
    assert_eq!(decimal_string(7), "7");
    assert_eq!(decimal_string(10), "10");
    assert_eq!(decimal_string(42), "42");
    assert_eq!(decimal_string(907), "907");
    assert_eq!(decimal_string(1234567890), "1234567890");
}
