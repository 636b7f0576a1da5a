use eliprompt::{
    classify_generation, fallback_prompt, Block, Environment, GenerationError, GenerationEvent,
};

fn env() -> Environment {
    Environment::new(None)
        .with_home_dir(None)
        .with_hostname(None)
        .with_username(None)
}

#[test]
fn finished_evaluation_is_the_result() {
    let blocks = vec![Block::new("x")];
    match classify_generation(GenerationEvent::Finished(blocks)) {
        Ok(b) => {
            assert_eq!(b.len(), 1);
            assert_eq!(b[0].text, "x");
        }
        Err(_) => panic!("completed evaluation must succeed"),
    }
}

#[test]
fn elapsed_deadline_is_timed_out() {
    match classify_generation(GenerationEvent::DeadlineElapsed) {
        Err(GenerationError::TimedOut) => {}
        _ => panic!("an elapsed deadline must classify as TimedOut"),
    }
}

#[test]
fn worker_defect_is_crashed() {
    match classify_generation(GenerationEvent::Faulted) {
        Err(GenerationError::Crashed) => {}
        _ => panic!("a worker defect must classify as Crashed"),
    }
}

#[test]
fn fallback_prompt_is_minimal() {
    // On success: just the arrow and a space.
    let blocks = fallback_prompt().produce(&env().with_prev_exit_code(0));
    let texts: Vec<&str> = blocks.iter().map(|b| b.text.as_str()).collect();
    assert_eq!(texts, vec![">", " "]);
    // On failure: the exit code first.
    let blocks = fallback_prompt().produce(&env().with_prev_exit_code(2));
    let texts: Vec<&str> = blocks.iter().map(|b| b.text.as_str()).collect();
    assert_eq!(texts, vec!["\u{f071}", "2", ">", " "]);
}
