use memospot::homedir::{current_entry_of, entry_of, expand_with, getent, Error, HomeDirExt};
use std::path::PathBuf;

/// Paths without `~` are returned as they are.
#[test]
fn test_expand_nonexpansion() {
    assert_eq!(
        PathBuf::from("/etc/some.conf".expand_home().unwrap()),
        PathBuf::from("/etc/some.conf")
    );
}

/// `~user` is expanded to the home directory of `user`.
#[test]
fn test_root() {
    const ROOT_DIR: &str = "/root";

    assert_eq!(PathBuf::from(getent("root").unwrap()), PathBuf::from(ROOT_DIR));
    assert_eq!(
        PathBuf::from("~root".expand_home().unwrap()),
        PathBuf::from(ROOT_DIR)
    );
}

/// An invalid `~user` gives an error.
#[test]
fn test_missing() {
    assert!(matches!(
        getent("_foobar_").unwrap_err(),
        Error::MissingEntry(_)
    ));
}

#[test]
fn expand_keeps_the_rest_of_the_path() {
    assert_eq!(
        PathBuf::from("~root/.vimrc".expand_home().unwrap()),
        PathBuf::from("/root/.vimrc")
    );
    assert_eq!(
        expand_with("~x/y/z", 2, Ok("/home/x".to_string())).unwrap(),
        "/home/x/y/z"
    );
    assert_eq!(
        expand_with("~", 1, Ok("/home/me".to_string())).unwrap(),
        "/home/me"
    );
}

#[test]
fn expand_of_unknown_user_names_the_user() {
    match "~_foobar_/x".expand_home() {
        Err(Error::MissingEntry(user)) => assert_eq!(user, "_foobar_"),
        other => panic!("unexpected: {:?}", other),
    }
    assert_eq!(
        entry_of("nobody_here", None),
        Err(Error::MissingEntry("nobody_here".to_string()))
    );
    assert_eq!(entry_of("a", Some("/h/a".to_string())), Ok("/h/a".to_string()));
    assert_eq!(current_entry_of(1000, None), Err(Error::CurrentUserDoesNotExist(1000)));
    assert_eq!(current_entry_of(1000, Some("/h/me".to_string())), Ok("/h/me".to_string()));
}

#[test]
fn expand_of_empty_and_relative_paths() {
    assert_eq!("".expand_home().unwrap(), "");
    assert_eq!("a/~b".expand_home().unwrap(), "a/~b");
    assert_eq!("./~".to_string().expand_home().unwrap(), "./~");
}

#[test]
fn error_messages() {
    assert_eq!(
        Error::MissingEntry("bob".to_string()).message(),
        "the user bob does not exist in the user database"
    );
    assert_eq!(
        Error::CurrentUserDoesNotExist(1000).message(),
        "the current user (numeric id 1000) does not exist in the user database"
    );
}

#[test]
fn bare_tilde_is_the_home_of_the_current_user() {
    if let Some(home) = home::home_dir() {
        assert_eq!(PathBuf::from("~".expand_home().unwrap()), home);
        assert_eq!(PathBuf::from("~/.vimrc".expand_home().unwrap()), home.join(".vimrc"));
    }
    match memospot::homedir::getent_current() {
        Ok(dir) => assert!(PathBuf::from(dir).is_absolute()),
        Err(Error::CurrentUserDoesNotExist(uid)) => {
            assert_eq!(uid, nix::unistd::Uid::current().as_raw())
        }
        Err(other) => panic!("unexpected error {:?}", other),
    }
}
