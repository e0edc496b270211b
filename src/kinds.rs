//! The file-type families and the resolution of an extension to a format
//! within its family.
use vstd::prelude::*;
use crate::tables::{executable_formats, image_formats, proprietary_formats};
use crate::text::same_text;

verus! {

/// A filename's family, with the format within it.
#[derive(Debug, Copy, Clone, PartialEq, Eq, Structural)]
pub enum FileType {
    Unknown,
    Image(ImgType),
    Executable(ExecType),
    Proprietary(PropType),
    Document(DocType),
    Archive(ArchType),
    Audio,
}

/// Executable formats.
#[derive(Debug, Copy, Clone, PartialEq, Eq, Structural)]
pub enum ExecType {
    EXE,
    ACTION,
    BAT,
}

/// Proprietary document formats.
#[derive(Debug, Copy, Clone, PartialEq, Eq, Structural)]
pub enum PropType {
    PSD,
    AI,
    /// `.ind`, `.indd` and `.indt`.
    INDD,
}

/// Document formats. No document extension is resolved yet.
#[derive(Debug, Copy, Clone, PartialEq, Eq, Structural)]
pub enum DocType {
    Unresolved,
}

/// Archive formats. No archive extension is resolved yet.
#[derive(Debug, Copy, Clone, PartialEq, Eq, Structural)]
pub enum ArchType {
    Unresolved,
}

/// Image formats.
#[derive(Debug, Copy, Clone, PartialEq, Eq, Structural)]
pub enum ImgType {
    JPEG,
    PNG,
    GIF,
    BMP,
    SVG,
    RAW,
    WEBP,
    TIFF,
    PSD,
    HEIF,
    JPEG2000,
    EPS,
}

/// The executable format named by extension `e`, if `e` names one.
pub open spec fn exec_kind(e: Seq<char>) -> Option<ExecType> {
    if e == "exe"@ {
        Some(ExecType::EXE)
    } else if e == "action"@ {
        Some(ExecType::ACTION)
    } else if e == "bat"@ {
        Some(ExecType::BAT)
    } else {
        None
    }
}

/// The proprietary format named by extension `e`, if `e` names one.
pub open spec fn prop_kind(e: Seq<char>) -> Option<PropType> {
    if e == "psd"@ {
        Some(PropType::PSD)
    } else if e == "ind"@ || e == "indd"@ || e == "indt"@ {
        Some(PropType::INDD)
    } else if e == "ai"@ {
        Some(PropType::AI)
    } else {
        None
    }
}

/// The image format named by extension `e`, if `e` names one.
pub open spec fn img_kind(e: Seq<char>) -> Option<ImgType> {
    if e == "jpg"@ || e == "jpeg"@ || e == "jpe"@ || e == "jfif"@ || e == "jif"@ {
        Some(ImgType::JPEG)
    } else if e == "png"@ {
        Some(ImgType::PNG)
    } else if e == "gif"@ {
        Some(ImgType::GIF)
    } else if e == "bmp"@ {
        Some(ImgType::BMP)
    } else if e == "svg"@ || e == "svgz"@ {
        Some(ImgType::SVG)
    } else if e == "raw"@ || e == "arw"@ || e == "cr2"@ || e == "nrw"@ || e == "k25"@ {
        Some(ImgType::RAW)
    } else if e == "webp"@ {
        Some(ImgType::WEBP)
    } else if e == "tiff"@ || e == "tif"@ {
        Some(ImgType::TIFF)
    } else if e == "psd"@ {
        Some(ImgType::PSD)
    } else if e == "heif"@ || e == "helc"@ {
        Some(ImgType::HEIF)
    } else if e == "jp2"@ || e == "j2k"@ || e == "jpf"@ || e == "jpx"@ || e == "jpm"@ || e
        == "mj2"@ {
        Some(ImgType::JPEG2000)
    } else if e == "eps"@ {
        Some(ImgType::EPS)
    } else {
        None
    }
}

/// Every entry of the executable table names an executable format, and
/// nothing else does.
pub proof fn lemma_exec_kind_covers_table(e: Seq<char>)
    ensures
        exec_kind(e) is Some <==> executable_formats().contains(e),
{
    if exec_kind(e) is Some {
        if e == "exe"@ {
            assert(executable_formats()[1] == e);
        } else if e == "action"@ {
            assert(executable_formats()[0] == e);
        } else {
            assert(executable_formats()[2] == e);
        }
    }
}

/// Every entry of the proprietary table names a proprietary format, and
/// nothing else does.
pub proof fn lemma_prop_kind_covers_table(e: Seq<char>)
    ensures
        prop_kind(e) is Some <==> proprietary_formats().contains(e),
{
    if prop_kind(e) is Some {
        let t = proprietary_formats();
        if e == "psd"@ {
            assert(t[0] == e);
        } else if e == "ind"@ {
            assert(t[1] == e);
        } else if e == "indd"@ {
            assert(t[3] == e);
        } else if e == "indt"@ {
            assert(t[2] == e);
        } else {
            assert(t[4] == e);
        }
    }
}

/// Every entry of the image table names an image format.
pub proof fn lemma_img_kind_covers_table(e: Seq<char>)
    ensures
        image_formats().contains(e) ==> img_kind(e) is Some,
{
    if image_formats().contains(e) {
        let k = choose|k: int| 0 <= k < image_formats().len() && image_formats()[k] == e;
        assert(0 <= k < 27);
    }
}

impl ExecType {
    /// The executable format named by `ext`, if it names one.
    pub fn parse(ext: &str) -> (r: Option<ExecType>)
        ensures
            r == exec_kind(ext@),
    {
        if same_text(ext, "exe") {
            Some(ExecType::EXE)
        } else if same_text(ext, "action") {
            Some(ExecType::ACTION)
        } else if same_text(ext, "bat") {
            Some(ExecType::BAT)
        } else {
            None
        }
    }

    /// The executable format named by `ext`, which is one of the executable
    /// table's entries.
    pub fn get(ext: &str) -> (r: ExecType)
        requires
            executable_formats().contains(ext@),
        ensures
            exec_kind(ext@) == Some(r),
    {
        proof {
            lemma_exec_kind_covers_table(ext@);
        }
        match ExecType::parse(ext) {
            Some(t) => t,
            // The precondition rules this arm out.
            None => ExecType::EXE,
        }
    }

    /// A human-readable label of the format.
    pub fn label(&self) -> (r: &'static str)
        ensures
            r@ == match self {
                ExecType::EXE => "EXE - Windows Executable"@,
                ExecType::ACTION => "ACTION - MacOs Automator Action"@,
                ExecType::BAT => "BAT - Windows Batch File"@,
            },
    {
        match self {
            ExecType::EXE => "EXE - Windows Executable",
            ExecType::ACTION => "ACTION - MacOs Automator Action",
            ExecType::BAT => "BAT - Windows Batch File",
        }
    }
}

impl PropType {
    /// The proprietary format named by `ext`, if it names one.
    pub fn parse(ext: &str) -> (r: Option<PropType>)
        ensures
            r == prop_kind(ext@),
    {
        if same_text(ext, "psd") {
            Some(PropType::PSD)
        } else if same_text(ext, "ind") || same_text(ext, "indd") || same_text(ext, "indt") {
            Some(PropType::INDD)
        } else if same_text(ext, "ai") {
            Some(PropType::AI)
        } else {
            None
        }
    }

    /// The proprietary format named by `ext`, which is one of the proprietary
    /// table's entries.
    pub fn get(ext: &str) -> (r: PropType)
        requires
            proprietary_formats().contains(ext@),
        ensures
            prop_kind(ext@) == Some(r),
    {
        proof {
            lemma_prop_kind_covers_table(ext@);
        }
        match PropType::parse(ext) {
            Some(t) => t,
            // The precondition rules this arm out.
            None => PropType::PSD,
        }
    }
}

impl ImgType {
    /// The image format named by `ext`, if it names one.
    pub fn parse(ext: &str) -> (r: Option<ImgType>)
        ensures
            r == img_kind(ext@),
    {
        if same_text(ext, "jpg") || same_text(ext, "jpeg") || same_text(ext, "jpe")
            || same_text(ext, "jfif") || same_text(ext, "jif") {
            Some(ImgType::JPEG)
        } else if same_text(ext, "png") {
            Some(ImgType::PNG)
        } else if same_text(ext, "gif") {
            Some(ImgType::GIF)
        } else if same_text(ext, "bmp") {
            Some(ImgType::BMP)
        } else if same_text(ext, "svg") || same_text(ext, "svgz") {
            Some(ImgType::SVG)
        } else if same_text(ext, "raw") || same_text(ext, "arw") || same_text(ext, "cr2")
            || same_text(ext, "nrw") || same_text(ext, "k25") {
            Some(ImgType::RAW)
        } else if same_text(ext, "webp") {
            Some(ImgType::WEBP)
        } else if same_text(ext, "tiff") || same_text(ext, "tif") {
            Some(ImgType::TIFF)
        } else if same_text(ext, "psd") {
            Some(ImgType::PSD)
        } else if same_text(ext, "heif") || same_text(ext, "helc") {
            Some(ImgType::HEIF)
        } else if same_text(ext, "jp2") || same_text(ext, "j2k") || same_text(ext, "jpf")
            || same_text(ext, "jpx") || same_text(ext, "jpm") || same_text(ext, "mj2") {
            Some(ImgType::JPEG2000)
        } else if same_text(ext, "eps") {
            Some(ImgType::EPS)
        } else {
            None
        }
    }

    /// The image format named by `ext`, which names one.
    pub fn get(ext: &str) -> (r: ImgType)
        requires
            img_kind(ext@) is Some,
        ensures
            img_kind(ext@) == Some(r),
    {
        match ImgType::parse(ext) {
            Some(t) => t,
            // The precondition rules this arm out.
            None => ImgType::JPEG,
        }
    }
}

} // verus!
