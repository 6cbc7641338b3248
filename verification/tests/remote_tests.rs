use zit::remote::RemoteOps;

#[test]
fn test_parse_remote_output_basic() {
    let output = "\
origin\thttps://github.com/user/repo.git (fetch)
origin\thttps://github.com/user/repo.git (push)
";
    let remotes = RemoteOps::parse_remote_output(output);
    assert_eq!(remotes.len(), 1);
    assert_eq!(remotes[0].0, "origin");
    assert_eq!(remotes[0].1, "https://github.com/user/repo.git");
}

#[test]
fn test_parse_remote_output_multiple() {
    let output = "\
origin\thttps://github.com/user/repo.git (fetch)
origin\thttps://github.com/user/repo.git (push)
upstream\thttps://github.com/upstream/repo.git (fetch)
upstream\thttps://github.com/upstream/repo.git (push)
";
    let remotes = RemoteOps::parse_remote_output(output);
    assert_eq!(remotes.len(), 2);
    assert_eq!(remotes[0].0, "origin");
    assert_eq!(remotes[1].0, "upstream");
}

#[test]
fn test_parse_remote_output_empty() {
    let remotes = RemoteOps::parse_remote_output("");
    assert!(remotes.is_empty());
}

#[test]
fn test_parse_remote_output_ssh_url() {
    let output = "origin\tgit@github.com:user/repo.git (fetch)\norigin\tgit@github.com:user/repo.git (push)\n";
    let remotes = RemoteOps::parse_remote_output(output);
    assert_eq!(remotes.len(), 1);
    assert_eq!(remotes[0].1, "git@github.com:user/repo.git");
}

#[test]
fn remote_list_keeps_the_first_url_of_a_name() {
    let output = "origin  https://a.example/x.git (fetch)\norigin  https://b.example/y.git (push)\nlonely\n\nup\tgit@h:z (fetch)\n";
    let remotes = RemoteOps::list(output);
    assert_eq!(
        remotes,
        vec![
            ("origin".to_string(), "https://a.example/x.git".to_string()),
            ("up".to_string(), "git@h:z".to_string()),
        ]
    );
}

#[test]
fn remote_commands() {
    assert_eq!(RemoteOps::add("origin", "git@h:x").args, vec!["remote", "add", "origin", "git@h:x"]);
    assert_eq!(RemoteOps::push("origin", "main", true).args, vec!["push", "-u", "origin", "main"]);
    assert_eq!(RemoteOps::push("origin", "main", false).args, vec!["push", "origin", "main"]);
    assert_eq!(RemoteOps::fetch("origin").args, vec!["fetch", "origin"]);
    assert_eq!(RemoteOps::pull("origin", "main").args, vec!["pull", "--rebase", "origin", "main"]);
    assert_eq!(
        RemoteOps::pull_allow_unrelated("origin", "main").args,
        vec!["pull", "--rebase", "--allow-unrelated-histories", "origin", "main"]
    );
}
