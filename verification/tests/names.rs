use file_extensions::ValidFileExtensions;
use std::collections::HashSet;

const IN_ORDER: [ValidFileExtensions; 12] = [
    ValidFileExtensions::Msix,
    ValidFileExtensions::Msi,
    ValidFileExtensions::Appx,
    ValidFileExtensions::Exe,
    ValidFileExtensions::Zip,
    ValidFileExtensions::MsixBundle,
    ValidFileExtensions::AppxBundle,
    ValidFileExtensions::Otf,
    ValidFileExtensions::Ttf,
    ValidFileExtensions::Fnt,
    ValidFileExtensions::Ttc,
    ValidFileExtensions::Otc,
];

#[test]
fn as_str_gives_each_canonical_name() {
    assert_eq!(ValidFileExtensions::Msix.as_str(), "msix");
    assert_eq!(ValidFileExtensions::Msi.as_str(), "msi");
    assert_eq!(ValidFileExtensions::Appx.as_str(), "appx");
    assert_eq!(ValidFileExtensions::Exe.as_str(), "exe");
    assert_eq!(ValidFileExtensions::Zip.as_str(), "zip");
    assert_eq!(ValidFileExtensions::MsixBundle.as_str(), "msixbundle");
    assert_eq!(ValidFileExtensions::AppxBundle.as_str(), "appxbundle");
    assert_eq!(ValidFileExtensions::Otf.as_str(), "otf");
    assert_eq!(ValidFileExtensions::Ttf.as_str(), "ttf");
    assert_eq!(ValidFileExtensions::Fnt.as_str(), "fnt");
    assert_eq!(ValidFileExtensions::Ttc.as_str(), "ttc");
    assert_eq!(ValidFileExtensions::Otc.as_str(), "otc");
}

#[test]
fn all_lists_the_twelve_names_in_order() {
    assert_eq!(
        ValidFileExtensions::ALL,
        [
            "msix",
            "msi",
            "appx",
            "exe",
            "zip",
            "msixbundle",
            "appxbundle",
            "otf",
            "ttf",
            "fnt",
            "ttc",
            "otc",
        ]
    );
    assert_eq!(ValidFileExtensions::ALL.len(), 12);
}

#[test]
fn all_matches_as_str_position_by_position() {
    for (position, extension) in IN_ORDER.iter().enumerate() {
        assert_eq!(ValidFileExtensions::ALL[position], extension.as_str());
    }
}

#[test]
fn names_are_a_bijection() {
    let produced: HashSet<&str> = IN_ORDER.iter().map(|e| e.as_str()).collect();
    let listed: HashSet<&str> = ValidFileExtensions::ALL.iter().copied().collect();
    assert_eq!(produced.len(), 12);
    assert_eq!(listed.len(), 12);
    assert_eq!(produced, listed);
}

#[test]
fn names_are_lowercase_ascii_letters() {
    for extension in IN_ORDER {
        let name = extension.as_str();
        assert!(name.len() >= 3 && name.len() <= 10);
        assert!(name.bytes().all(|b| b.is_ascii_lowercase()));
    }
}

#[test]
fn display_text_equals_as_str() {
    for extension in IN_ORDER {
        assert_eq!(extension.to_string(), extension.as_str());
    }
    assert_eq!(ValidFileExtensions::MsixBundle.to_string(), "msixbundle");
}

#[test]
fn as_ref_equals_as_str() {
    for extension in IN_ORDER {
        let borrowed: &str = extension.as_ref();
        assert_eq!(borrowed, extension.as_str());
    }
    let borrowed: &str = ValidFileExtensions::Fnt.as_ref();
    assert_eq!(borrowed, "fnt");
}

#[test]
fn repeated_rendering_gives_the_same_text() {
    for extension in IN_ORDER {
        assert_eq!(extension.as_str(), extension.as_str());
        assert_eq!(extension.to_string(), extension.to_string());
    }
}

#[test]
fn extensions_are_copied_and_compared_by_value() {
    let first = ValidFileExtensions::Ttf;
    let copy = first;
    assert_eq!(first, copy);
    assert_eq!(first.clone(), copy);
    assert_ne!(ValidFileExtensions::Ttf, ValidFileExtensions::Ttc);
    assert_eq!(format!("{:?}", ValidFileExtensions::AppxBundle), "AppxBundle");
}

#[test]
fn extensions_work_as_set_elements() {
    let mut seen: HashSet<ValidFileExtensions> = HashSet::new();
    for extension in IN_ORDER {
        assert!(seen.insert(extension));
    }
    for extension in IN_ORDER {
        assert!(!seen.insert(extension));
    }
    assert_eq!(seen.len(), 12);
}
