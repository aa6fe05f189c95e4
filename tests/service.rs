use saucebot::service::Service;

#[test]
fn test_every_key() {
    let mut key = Service::Danbooru.key();
    assert_eq!(Service::from_string(key.as_str()), Some(Service::Danbooru));
    key = Service::Safebooru.key();
    assert_eq!(Service::from_string(key.as_str()), Some(Service::Safebooru));
    key = Service::Gelbooru.key();
    assert_eq!(Service::from_string(key.as_str()), Some(Service::Gelbooru));
    key = Service::Konachan.key();
    assert_eq!(Service::from_string(key.as_str()), Some(Service::Konachan));
    key = Service::YandeRe.key();
    assert_eq!(Service::from_string(key.as_str()), Some(Service::YandeRe));
    key = Service::Zerochan.key();
    assert_eq!(Service::from_string(key.as_str()), Some(Service::Zerochan));
    key = Service::AnimePictures.key();
    assert_eq!(
        Service::from_string(key.as_str()),
        Some(Service::AnimePictures)
    );
    key = Service::IdolComplex.key();
    assert_eq!(
        Service::from_string(key.as_str()),
        Some(Service::IdolComplex)
    );
    key = Service::SankakuComplex.key();
    assert_eq!(
        Service::from_string(key.as_str()),
        Some(Service::SankakuComplex)
    );
    key = Service::EShuushuu.key();
    assert_eq!(Service::from_string(key.as_str()), Some(Service::EShuushuu));
    key = Service::MangaDex.key();
    assert_eq!(Service::from_string(key.as_str()), Some(Service::MangaDex));
    key = Service::MangaDexChapter.key();
    assert_eq!(
        Service::from_string(key.as_str()),
        Some(Service::MangaDexChapter)
    );
    key = Service::MangaUpdates.key();
    assert_eq!(
        Service::from_string(key.as_str()),
        Some(Service::MangaUpdates)
    );
    key = Service::MyAnimeList.key();
    assert_eq!(
        Service::from_string(key.as_str()),
        Some(Service::MyAnimeList)
    );
    key = Service::Fakku.key();
    assert_eq!(Service::from_string(key.as_str()), Some(Service::Fakku));
    key = Service::EHentai.key();
    assert_eq!(Service::from_string(key.as_str()), Some(Service::EHentai));
    key = Service::AniDB.key();
    assert_eq!(Service::from_string(key.as_str()), Some(Service::AniDB));
    key = Service::AniList.key();
    assert_eq!(Service::from_string(key.as_str()), Some(Service::AniList));
    key = Service::PixivMember.key();
    assert_eq!(
        Service::from_string(key.as_str()),
        Some(Service::PixivMember)
    );
    key = Service::PixivArtwork.key();
    assert_eq!(
        Service::from_string(key.as_str()),
        Some(Service::PixivArtwork)
    );
    key = Service::XUser.key();
    assert_eq!(Service::from_string(key.as_str()), Some(Service::XUser));
    key = Service::XStatus.key();
    assert_eq!(Service::from_string(key.as_str()), Some(Service::XStatus));
    key = Service::Unknown("example.com".to_string()).key();
    assert_eq!(
        Service::from_string(key.as_str()),
        Some(Service::Unknown("example.com".to_string()))
    );
}

#[test]
fn test_danbooru_parsing() {
    assert_eq!(
        Service::from_url("https://danbooru.donmai.us/posts/1234"),
        Service::Danbooru
    );
    assert_eq!(
        Service::from_url("https://danbooru.donmai.us/posts/show/1234"),
        Service::Danbooru
    );
}

#[test]
fn test_danbooru_id() {
    assert_eq!(
        Service::Danbooru.get_id("https://danbooru.donmai.us/posts/1234"),
        Some("1234".to_string())
    );
    assert_eq!(
        Service::Danbooru.get_id("https://danbooru.donmai.us/posts/show/1234"),
        Some("1234".to_string())
    );
}

#[test]
fn test_danbooru_url_builder() {
    assert_eq!(
        Service::Danbooru.build_url("1234"),
        Some("https://danbooru.donmai.us/posts/1234".to_string())
    );
}

#[test]
fn test_danbooru_from_id() {
    assert_eq!(Service::from_string("danbooru"), Some(Service::Danbooru));
    assert_eq!(Service::from_string("danbooru_id"), Some(Service::Danbooru));
    assert_eq!(Service::from_string("danbooru-id"), Some(Service::Danbooru));
}

#[test]
fn test_safebooru_parsing() {
    assert_eq!(
        Service::from_url("https://safebooru.org/index.php?page=post&s=view&id=1234"),
        Service::Safebooru
    );
}

#[test]
fn test_safebooru_id() {
    assert_eq!(
        Service::Safebooru.get_id("https://safebooru.org/index.php?page=post&s=view&id=1234"),
        Some("1234".to_string())
    );
}

#[test]
fn test_safebooru_url_builder() {
    assert_eq!(
        Service::Safebooru.build_url("1234"),
        Some("https://safebooru.org/index.php?page=post&s=view&id=1234".to_string())
    );
}

#[test]
fn test_gelbooru_parsing() {
    assert_eq!(
        Service::from_url("https://gelbooru.com/index.php?page=post&s=view&id=1234"),
        Service::Gelbooru
    );
}

#[test]
fn test_gelbooru_id() {
    assert_eq!(
        Service::Gelbooru.get_id("https://gelbooru.com/index.php?page=post&s=view&id=1234"),
        Some("1234".to_string())
    );
}

#[test]
fn test_gelbooru_url_builder() {
    assert_eq!(
        Service::Gelbooru.build_url("1234"),
        Some("https://gelbooru.com/index.php?page=post&s=view&id=1234".to_string())
    );
}

#[test]
fn test_konachan_parsing() {
    assert_eq!(
        Service::from_url("https://konachan.com/post/show/1234"),
        Service::Konachan
    );
}

#[test]
fn test_konachan_id() {
    assert_eq!(
        Service::Konachan.get_id("https://konachan.com/post/show/1234"),
        Some("1234".to_string())
    );
}

#[test]
fn test_konachan_url_builder() {
    assert_eq!(
        Service::Konachan.build_url("1234"),
        Some("https://konachan.com/post/show/1234".to_string())
    );
}

#[test]
fn test_yandere_parsing() {
    assert_eq!(
        Service::from_url("https://yande.re/post/show/1234"),
        Service::YandeRe
    );
}

#[test]
fn test_yandere_id() {
    assert_eq!(
        Service::YandeRe.get_id("https://yande.re/post/show/1234"),
        Some("1234".to_string())
    );
}

#[test]
fn test_yandere_url_builder() {
    assert_eq!(
        Service::YandeRe.build_url("1234"),
        Some("https://yande.re/post/show/1234".to_string())
    );
}

#[test]
fn test_zerochan_parsing() {
    assert_eq!(
        Service::from_url("https://www.zerochan.net/1234"),
        Service::Zerochan
    );
}

#[test]
fn test_zerochan_id() {
    assert_eq!(
        Service::Zerochan.get_id("https://www.zerochan.net/1234"),
        Some("1234".to_string())
    );
}

#[test]
fn test_zerochan_url_builder() {
    assert_eq!(
        Service::Zerochan.build_url("1234"),
        Some("https://www.zerochan.net/1234".to_string())
    );
}

#[test]
fn test_animepictures_parsing() {
    assert_eq!(
        Service::from_url("https://www.anime-pictures.net/pictures/view_post/1234"),
        Service::AnimePictures
    );
}

#[test]
fn test_animepictures_id() {
    assert_eq!(
        Service::AnimePictures.get_id("https://anime-pictures.net/posts/1234?lang=en"),
        Some("1234".to_string())
    );
}

#[test]
fn test_animepictures_url_builder() {
    assert_eq!(
        Service::AnimePictures.build_url("1234"),
        Some("https://anime-pictures.net/posts/1234".to_string())
    );
}

#[test]
fn test_idolcomplex_parsing() {
    assert_eq!(
        Service::from_url("https://idol.sankakucomplex.com/post/abcd"),
        Service::IdolComplex
    );
    assert_eq!(
        Service::from_url("https://www.idolcomplex.com/posts/abcd"),
        Service::IdolComplex
    );
}

#[test]
fn test_idolcomplex_id() {
    assert_eq!(
        Service::IdolComplex.get_id("https://idol.sankakucomplex.com/post/abcd"),
        Some("abcd".to_string())
    );
    assert_eq!(
        Service::IdolComplex.get_id("https://wwww.idolcomplex.com/posts/abcd"),
        Some("abcd".to_string())
    );
}

#[test]
fn test_idolcomplex_url_builder() {
    assert_eq!(
        Service::IdolComplex.build_url("abcd"),
        Some("https://www.idolcomplex.com/posts/abcd".to_string())
    );
}

#[test]
fn test_sankakucomplex_parsing() {
    assert_eq!(
        Service::from_url("https://www.sankakucomplex.com/posts/1234"),
        Service::SankakuComplex
    );
    assert_eq!(
        Service::from_url("https://chan.sankakucomplex.com/post/1234"),
        Service::SankakuComplex
    );
}

#[test]
fn test_sankakucomplex_id() {
    assert_eq!(
        Service::SankakuComplex.get_id("https://www.sankakucomplex.com/posts/1234"),
        Some("1234".to_string())
    );
    assert_eq!(
        Service::SankakuComplex.get_id("https://chan.sankakucomplex.com/post/1234"),
        Some("1234".to_string())
    );
}

#[test]
fn test_sankakucomplex_url_builder() {
    assert_eq!(
        Service::SankakuComplex.build_url("1234"),
        Some("https://www.sankakucomplex.com/posts/1234".to_string())
    );
}

#[test]
fn test_eshuushuu_parsing() {
    assert_eq!(
        Service::from_url("https://e-shuushuu.net/image/1234"),
        Service::EShuushuu
    );
}

#[test]
fn test_eshuushuu_id() {
    assert_eq!(
        Service::EShuushuu.get_id("https://e-shuushuu.net/image/1234"),
        Some("1234".to_string())
    );
}

#[test]
fn test_eshuushuu_url_builder() {
    assert_eq!(
        Service::EShuushuu.build_url("1234"),
        Some("https://e-shuushuu.net/image/1234".to_string())
    );
}

#[test]
fn test_mangadex_parsing() {
    assert_eq!(
        Service::from_url("https://mangadex.org/title/abcd"),
        Service::MangaDex
    );
}

#[test]
fn test_mangadex_id() {
    assert_eq!(
        Service::MangaDex.get_id("https://mangadex.org/title/abcd"),
        Some("abcd".to_string())
    );
}

#[test]
fn test_mangadex_url_builder() {
    assert_eq!(
        Service::MangaDex.build_url("abcd"),
        Some("https://mangadex.org/title/abcd".to_string())
    );
}

#[test]
fn test_mangaupdates_parsing() {
    assert_eq!(
        Service::from_url("https://www.mangaupdates.com/series.html?id=1234"),
        Service::MangaUpdates
    );
}

#[test]
fn test_mangaupdates_id() {
    assert_eq!(
        Service::MangaUpdates.get_id("https://www.mangaupdates.com/series.html?id=1234"),
        Some("1234".to_string())
    );
}

#[test]
fn test_mangaupdates_url_builder() {
    assert_eq!(
        Service::MangaUpdates.build_url("1234"),
        Some("https://www.mangaupdates.com/series.html?id=1234".to_string())
    );
}

#[test]
fn test_myanimelist_parsing() {
    assert_eq!(
        Service::from_url("https://myanimelist.net/anime/1234"),
        Service::MyAnimeList
    );
}

#[test]
fn test_myanimelist_id() {
    assert_eq!(
        Service::MyAnimeList.get_id("https://myanimelist.net/anime/1234"),
        Some("1234".to_string())
    );
}

#[test]
fn test_myanimelist_url_builder() {
    assert_eq!(
        Service::MyAnimeList.build_url("1234"),
        Some("https://myanimelist.net/anime/1234".to_string())
    );
}

#[test]
fn test_fakku_parsing() {
    assert_eq!(
        Service::from_url("https://www.fakku.net/hentai/title-name"),
        Service::Fakku
    );
}

#[test]
fn test_fakku_id() {
    assert_eq!(
        Service::Fakku.get_id("https://www.fakku.net/hentai/title-name"),
        Some("title-name".to_string())
    );
}

#[test]
fn test_fakku_url_builder() {
    assert_eq!(
        Service::Fakku.build_url("title-name"),
        Some("https://www.fakku.net/hentai/title-name".to_string())
    );
}

#[test]
fn test_ehentai_parsing() {
    assert_eq!(
        Service::from_url("https://e-hentai.org/g/1234/abcd"),
        Service::EHentai
    );
}

#[test]
fn test_ehentai_id() {
    assert_eq!(
        Service::EHentai.get_id("https://e-hentai.org/g/1234/abcd"),
        Some("1234/abcd".to_string())
    );
}

#[test]
fn test_ehentai_url_builder() {
    assert_eq!(
        Service::EHentai.build_url("1234/abcd"),
        Some("https://e-hentai.org/g/1234/abcd".to_string())
    );
}

#[test]
fn test_anidb_parsing() {
    assert_eq!(
        Service::from_url("https://anidb.net/anime/1234"),
        Service::AniDB
    );
}

#[test]
fn test_anidb_id() {
    assert_eq!(
        Service::AniDB.get_id("https://anidb.net/anime/1234"),
        Some("1234".to_string())
    );
}

#[test]
fn test_anidb_url_builder() {
    assert_eq!(
        Service::AniDB.build_url("1234"),
        Some("https://anidb.net/anime/1234".to_string())
    );
}

#[test]
fn test_anilist_parsing() {
    assert_eq!(
        Service::from_url("https://anilist.co/anime/1234"),
        Service::AniList
    );
}

#[test]
fn test_anilist_id() {
    assert_eq!(
        Service::AniList.get_id("https://anilist.co/anime/1234"),
        Some("1234".to_string())
    );
}

#[test]
fn test_anilist_url_builder() {
    assert_eq!(
        Service::AniList.build_url("1234"),
        Some("https://anilist.co/anime/1234".to_string())
    );
}

#[test]
fn test_pixivmember_parsing() {
    assert_eq!(
        Service::from_url("https://www.pixiv.net/en/users/1234"),
        Service::PixivMember
    );
}

#[test]
fn test_pixivmember_id() {
    assert_eq!(
        Service::PixivMember.get_id("https://www.pixiv.net/en/users/1234"),
        Some("1234".to_string())
    );
}

#[test]
fn test_pixivmember_url_builder() {
    assert_eq!(
        Service::PixivMember.build_url("1234"),
        Some("https://www.pixiv.net/en/users/1234".to_string())
    );
}

#[test]
fn test_pixivartwork_parsing() {
    assert_eq!(
        Service::from_url("https://www.pixiv.net/en/artworks/1234"),
        Service::PixivArtwork
    );
    assert_eq!(
        Service::from_url(
            "https://i.pximg.net/img-original/img/2025/02/19/22/15/44/127420438_p0.jpg"
        ),
        Service::PixivArtwork
    );
}

#[test]
fn test_pixivartwork_id() {
    assert_eq!(
        Service::PixivArtwork.get_id("https://www.pixiv.net/en/artworks/1234"),
        Some("1234".to_string())
    );
    assert_eq!(
        Service::PixivArtwork.get_id(
            "https://i.pximg.net/img-original/img/2025/02/19/22/15/44/127420438_p0.jpg"
        ),
        Some("127420438".to_string())
    );
}

#[test]
fn test_pixivartwork_url_builder() {
    assert_eq!(
        Service::PixivArtwork.build_url("1234"),
        Some("https://www.pixiv.net/en/artworks/1234".to_string())
    );
}

#[test]
fn test_xuser_parsing() {
    assert_eq!(Service::from_url("https://x.com/1234"), Service::XUser);
}

#[test]
fn test_xuser_id() {
    assert_eq!(
        Service::XUser.get_id("https://x.com/1234"),
        Some("1234".to_string())
    );
}

#[test]
fn test_xuser_url_builder() {
    assert_eq!(
        Service::XUser.build_url("1234"),
        Some("https://x.com/1234".to_string())
    );
}

#[test]
fn test_xstatus_parsing() {
    assert_eq!(
        Service::from_url("https://x.com/user/status/1234"),
        Service::XStatus
    );
}

#[test]
fn test_xstatus_id() {
    assert_eq!(
        Service::XStatus.get_id("https://x.com/user/status/1234"),
        Some("1234".to_string())
    );
}

#[test]
fn test_xstatus_url_builder() {
    assert_eq!(
        Service::XStatus.build_url("1234"),
        Some("https://x.com/i/status/1234".to_string())
    );
}
