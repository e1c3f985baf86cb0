use vstd::prelude::*;
use vstd::string::*;

verus! {

/// What the pipeline fetches and what it merges: the mirror, the names of
/// the cached artifacts and the asset subdirectories.
pub struct Config {
    /// The one mirror the archive is downloaded from.
    pub mirror_url: String,
    /// Names the archive (`<id>.<ext>`) and the unpacked tree (`<id>`) in the cache.
    pub package_id: String,
    /// Extension of the archive file.
    pub archive_ext: String,
    /// Directory inside the unpacked tree that holds the asset subdirectories.
    pub content_dir: String,
    /// Directory appended to the platform cache base to form the cache root.
    pub namespace: String,
    /// Asset subdirectories, relative to both the content directory and the target.
    pub assets: Vec<String>,
}

/// The views of a list of strings.
pub open spec fn views(v: Seq<String>) -> Seq<Seq<char>> {
    v.map_values(|s: String| s@)
}

/// The asset subdirectories of the runtime package.
pub open spec fn standard_assets() -> Seq<Seq<char>> {
    seq![
        "Audio/BGM"@,
        "Audio/BGS"@,
        "Audio/ME"@,
        "Audio/SE"@,
        "Fonts"@,
        "Graphics/Animations"@,
        "Graphics/Battlebacks1"@,
        "Graphics/Battlebacks2"@,
        "Graphics/Battlers"@,
        "Graphics/Characters"@,
        "Graphics/Faces"@,
        "Graphics/Parallaxes"@,
        "Graphics/System"@,
        "Graphics/Tilesets"@,
        "Graphics/Titles1"@,
        "Graphics/Titles2"@,
    ]
}

impl Config {
    /// The runtime package as the public mirror serves it.
    pub fn standard() -> (r: Config)
        ensures
            r.mirror_url@ == "https://archive.org/download/vxacertp.tar/vxacertp.tar.gz"@,
            r.package_id@ == "vxacertp"@,
            r.archive_ext@ == "tar.gz"@,
            r.content_dir@ == "RPGVXAce"@,
            r.namespace@ == "lutwig"@,
            views(r.assets@) == standard_assets(),
    {
        let assets = vec![
            String::from_str("Audio/BGM"),
            String::from_str("Audio/BGS"),
            String::from_str("Audio/ME"),
            String::from_str("Audio/SE"),
            String::from_str("Fonts"),
            String::from_str("Graphics/Animations"),
            String::from_str("Graphics/Battlebacks1"),
            String::from_str("Graphics/Battlebacks2"),
            String::from_str("Graphics/Battlers"),
            String::from_str("Graphics/Characters"),
            String::from_str("Graphics/Faces"),
            String::from_str("Graphics/Parallaxes"),
            String::from_str("Graphics/System"),
            String::from_str("Graphics/Tilesets"),
            String::from_str("Graphics/Titles1"),
            String::from_str("Graphics/Titles2"),
        ];
        assert(views(assets@) =~= standard_assets());
        Config {
            mirror_url: String::from_str("https://archive.org/download/vxacertp.tar/vxacertp.tar.gz"),
            package_id: String::from_str("vxacertp"),
            archive_ext: String::from_str("tar.gz"),
            content_dir: String::from_str("RPGVXAce"),
            namespace: String::from_str("lutwig"),
            assets,
        }
    }
}

} // verus!
