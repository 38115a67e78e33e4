use cache_extractor::registry::all_signatures;
use cache_extractor::registry::get_categories;
use cache_extractor::registry::get_tab;
use cache_extractor::registry::registered;
use cache_extractor::registry::signatures_for;
use cache_extractor::registry::Category;
use cache_extractor::registry::Signature;

#[test]
fn signatures_have_their_bytes() {
    assert_eq!(Signature::OggS.bytes(), b"OggS".to_vec());
    assert_eq!(Signature::Id3.bytes(), b"ID3".to_vec());
    assert_eq!(Signature::Png.bytes(), b"PNG".to_vec());
    assert_eq!(Signature::Webp.bytes(), b"WEBP".to_vec());
    assert_eq!(Signature::Ktx.bytes(), b"KTX".to_vec());
    assert_eq!(Signature::Roblox.bytes(), b"<roblox!".to_vec());
}

#[test]
fn signatures_have_their_offsets() {
    assert_eq!(Signature::OggS.offset(), 0);
    assert_eq!(Signature::Id3.offset(), 0);
    assert_eq!(Signature::Png.offset(), 1);
    assert_eq!(Signature::Webp.offset(), 8);
    assert_eq!(Signature::Ktx.offset(), 1);
    assert_eq!(Signature::Roblox.offset(), 0);
}

#[test]
fn signatures_have_their_extensions() {
    assert_eq!(Signature::OggS.extension(), ".ogg");
    assert_eq!(Signature::Id3.extension(), ".mp3");
    assert_eq!(Signature::Png.extension(), ".png");
    assert_eq!(Signature::Webp.extension(), ".webp");
    assert_eq!(Signature::Ktx.extension(), ".ktx");
    assert_eq!(Signature::Roblox.extension(), ".rbxm");
}

#[test]
fn signatures_know_their_category() {
    assert_eq!(Signature::OggS.category(), Category::Sounds);
    assert_eq!(Signature::Id3.category(), Category::Sounds);
    assert_eq!(Signature::Png.category(), Category::Images);
    assert_eq!(Signature::Webp.category(), Category::Images);
    assert_eq!(Signature::Ktx.category(), Category::Ktx);
    assert_eq!(Signature::Roblox.category(), Category::Rbxm);
}

#[test]
fn categories_list_their_signatures_in_order() {
    assert_eq!(Category::Sounds.signatures(), vec![Signature::OggS, Signature::Id3]);
    assert_eq!(Category::Images.signatures(), vec![Signature::Png, Signature::Webp]);
    assert_eq!(Category::Ktx.signatures(), vec![Signature::Ktx]);
    assert_eq!(Category::Rbxm.signatures(), vec![Signature::Roblox]);
    assert_eq!(Category::Music.signatures(), Vec::<Signature>::new());
}

#[test]
fn tokens_name_categories() {
    assert_eq!(Category::from_token("music"), Some(Category::Music));
    assert_eq!(Category::from_token("sounds"), Some(Category::Sounds));
    assert_eq!(Category::from_token("images"), Some(Category::Images));
    assert_eq!(Category::from_token("ktx-files"), Some(Category::Ktx));
    assert_eq!(Category::from_token("rbxm-files"), Some(Category::Rbxm));
}

#[test]
fn unknown_tokens_name_nothing() {
    assert_eq!(Category::from_token(""), None);
    assert_eq!(Category::from_token("Music"), None);
    assert_eq!(Category::from_token("ktx"), None);
    assert_eq!(Category::from_token("videos"), None);
}

#[test]
fn get_tab_spells_the_token() {
    assert_eq!(get_tab(Category::Music), "music");
    assert_eq!(get_tab(Category::Sounds), "sounds");
    assert_eq!(get_tab(Category::Images), "images");
    assert_eq!(get_tab(Category::Ktx), "ktx-files");
    assert_eq!(get_tab(Category::Rbxm), "rbxm-files");
    assert_eq!(Category::Ktx.token(), "ktx-files");
}

#[test]
fn token_round_trip() {
    for category in [
        Category::Music,
        Category::Sounds,
        Category::Images,
        Category::Ktx,
        Category::Rbxm,
    ] {
        assert_eq!(Category::from_token(&get_tab(category)), Some(category));
    }
}

#[test]
fn only_music_is_not_sniffed() {
    assert!(!Category::Music.is_sniffed());
    assert!(Category::Sounds.is_sniffed());
    assert!(Category::Images.is_sniffed());
    assert!(Category::Ktx.is_sniffed());
    assert!(Category::Rbxm.is_sniffed());
}

#[test]
fn get_categories_lists_the_registry_in_order() {
    assert_eq!(get_categories(), vec!["sounds", "images", "ktx-files", "rbxm-files"]);
    assert_eq!(
        registered(),
        vec![Category::Sounds, Category::Images, Category::Ktx, Category::Rbxm]
    );
}

#[test]
fn all_signatures_go_category_by_category() {
    let mut expected = Vec::new();
    for category in registered() {
        expected.extend(category.signatures());
    }
    assert_eq!(all_signatures(), expected);
    assert_eq!(all_signatures().len(), 6);
}

#[test]
fn registry_lookup_by_token() {
    assert_eq!(signatures_for("sounds"), Some(vec![Signature::OggS, Signature::Id3]));
    assert_eq!(signatures_for("images"), Some(vec![Signature::Png, Signature::Webp]));
    assert_eq!(signatures_for("ktx-files"), Some(vec![Signature::Ktx]));
    assert_eq!(signatures_for("rbxm-files"), Some(vec![Signature::Roblox]));
}

#[test]
fn registry_lookup_of_what_it_does_not_hold() {
    assert_eq!(signatures_for("music"), None);
    assert_eq!(signatures_for("videos"), None);
    assert_eq!(signatures_for(""), None);
    assert_eq!(signatures_for("SOUNDS"), None);
}
