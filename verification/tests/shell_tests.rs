use ao_cli::shell::{
    choices_suffix, completion_words, dump_command_tree, option_flag, option_tokens, pick_suggestions,
    positional_tokens, prompt_for, user_add_words, validate_email, validate_username, CommandTree,
};

fn strings(v: &[&str]) -> Vec<String> {
    v.iter().map(|s| s.to_string()).collect()
}

#[test]
fn completion_requests_carry_the_words_after_the_separator() {
    let w = completion_words(&strings(&["/usr/bin/ao", "--", "/usr/local/bin/ao", "service", "up"])).unwrap();
    assert_eq!(w, strings(&["ao", "service", "up"]));
    assert_eq!(completion_words(&strings(&["ao", "--"])).unwrap(), Vec::<String>::new());
    assert!(completion_words(&strings(&["ao", "service"])).is_none());
}

#[test]
fn the_first_domain_with_suggestions_wins_and_help_is_dropped() {
    let per = vec![vec![], strings(&["help", "cron", "-h", "sshd", "--help"]), strings(&["other"])];
    assert_eq!(pick_suggestions(&per).unwrap(), strings(&["cron", "sshd"]));
    assert!(pick_suggestions(&vec![vec![], vec![]]).is_none());
    assert_eq!(pick_suggestions(&vec![strings(&["help"])]).unwrap(), Vec::<String>::new());
}

#[test]
fn usernames_and_emails_are_checked() {
    assert_eq!(validate_username(""), Err("Username cannot be empty"));
    assert_eq!(validate_username("bad name"), Err("Username contains invalid characters"));
    assert_eq!(validate_username("jane_doe-2"), Ok(()));
    assert_eq!(validate_username("zoë"), Ok(()));
    assert_eq!(validate_email(""), Ok(()));
    assert_eq!(validate_email("jane.example.com"), Err("Invalid email format"));
    assert_eq!(validate_email("jane@example.com"), Ok(()));
}

#[test]
fn answers_become_words() {
    assert_eq!(positional_tokens(true, true, " a, b ,c").unwrap(), strings(&["a", "b", "c"]));
    assert_eq!(positional_tokens(false, true, "jane").unwrap(), strings(&["jane"]));
    assert!(positional_tokens(false, true, "").is_none());
    assert_eq!(positional_tokens(false, false, "").unwrap(), Vec::<String>::new());
    assert_eq!(option_tokens(Some("--shell"), false, "/bin/zsh").unwrap(), strings(&["--shell", "/bin/zsh"]));
    assert!(option_tokens(Some("--gid"), true, "").is_none());
    assert_eq!(option_flag(Some("format"), Some('f')).unwrap(), "--format");
    assert_eq!(option_flag(None, Some('f')).unwrap(), "-f");
    assert!(option_flag(None, None).is_none());
    assert_eq!(choices_suffix(&strings(&["table", "json"])), " [table, json]");
    assert_eq!(choices_suffix(&Vec::new()), "");
}

#[test]
fn user_add_prompts_are_worded_for_people() {
    assert!(user_add_words(&strings(&["ao", "user", "add"])));
    assert!(!user_add_words(&strings(&["ao", "user", "delete"])));
    assert_eq!(prompt_for(true, "email", Some("The email")), "User's email address");
    assert_eq!(prompt_for(false, "email", Some("The email")), "The email");
    assert_eq!(prompt_for(false, "gid", None), "gid");
}

fn tree(name: &str, children: Vec<CommandTree>) -> CommandTree {
    CommandTree { name: name.to_string(), children }
}

#[test]
fn the_command_tree_draws_branches() {
    let t = tree(
        "ao",
        vec![
            tree("boot", vec![tree("list", vec![]), tree("module", vec![tree("load", vec![])])]),
            tree("user", vec![tree("add", vec![])]),
        ],
    );
    assert_eq!(
        dump_command_tree(&t),
        strings(&[
            "ao",
            "├── boot",
            "│   ├── list",
            "│   └── module",
            "│       └── load",
            "└── user",
            "    └── add",
        ])
    );
}
