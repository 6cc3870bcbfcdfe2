use kitty_media::remote_components::{component_flags, RemoteComponents, RemoteComponentsError};

#[test]
fn parses_each_option() {
    assert_eq!(RemoteComponents::from_str("ejs:github"), Ok(RemoteComponents::EjsGitHub));
    assert_eq!(RemoteComponents::from_str("ejs:npm"), Ok(RemoteComponents::EjsNpm));
    assert_eq!(RemoteComponents::from_str("none"), Ok(RemoteComponents::Disabled));
    assert_eq!("ejs:npm".parse::<RemoteComponents>(), Ok(RemoteComponents::EjsNpm));
}

#[test]
fn parses_comma_separated_lists() {
    assert_eq!(
        RemoteComponents::from_str("ejs:github,ejs:npm"),
        Ok(RemoteComponents::EjsGitHubAndNpm)
    );
    assert_eq!(
        RemoteComponents::from_str("ejs:npm,ejs:github"),
        Ok(RemoteComponents::EjsGitHubAndNpm)
    );
    assert_eq!(RemoteComponents::from_str("ejs:npm,ejs:npm"), Ok(RemoteComponents::EjsNpm));
    assert_eq!(RemoteComponents::from_str("none,ejs:github"), Ok(RemoteComponents::EjsGitHub));
    assert_eq!(RemoteComponents::from_str("none,none"), Ok(RemoteComponents::Disabled));
    assert_eq!(component_flags("ejs:npm,none,ejs:github"), Some((true, true)));
    assert_eq!(component_flags("ejs:npm,"), None);
}

#[test]
fn refuses_unknown_options() {
    for s in [
        "",
        "ejs",
        "EJS:GITHUB",
        " ejs:github",
        "ejs:github ",
        "None",
        "ejs:github,",
        ",ejs:npm",
        "ejs:github, ejs:npm",
        "ejs:github,ejs:pip",
    ] {
        assert_eq!(RemoteComponents::from_str(s), Err(RemoteComponentsError::Invalid), "{s}");
    }
    assert_eq!(
        RemoteComponentsError::Invalid.to_string(),
        "The provided string does not match any valid remote components options."
    );
}

#[test]
fn argument_for_yt_dlp() {
    assert_eq!(RemoteComponents::EjsGitHub.as_arg(), Some("ejs:github".to_string()));
    assert_eq!(RemoteComponents::EjsNpm.as_arg(), Some("ejs:npm".to_string()));
    assert_eq!(
        RemoteComponents::EjsGitHubAndNpm.as_arg(),
        Some("ejs:github,ejs:npm".to_string())
    );
    assert_eq!(RemoteComponents::Disabled.as_arg(), None);
    assert_eq!(RemoteComponents::default(), RemoteComponents::Disabled);
}

#[test]
fn text_parses_back() {
    for v in [
        RemoteComponents::EjsGitHub,
        RemoteComponents::EjsNpm,
        RemoteComponents::EjsGitHubAndNpm,
        RemoteComponents::Disabled,
    ] {
        assert_eq!(RemoteComponents::from_str(&v.to_string()), Ok(v));
        if let Some(arg) = v.as_arg() {
            assert_eq!(RemoteComponents::from_str(&arg), Ok(v));
        }
    }
}
