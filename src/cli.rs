//! The command line, the help text, and the guidance printed where the
//! converter is not installed.

use vstd::prelude::*;
use crate::naming::same_text;

verus! {

/// What the command line asks for.
pub enum Invocation {
    /// Print the help text and stop.
    Help,
    /// Convert the files under this directory.
    Convert { input_dir: String },
}

/// The flag that asks for help.
pub open spec fn help_flag() -> Seq<char> {
    "-h"@
}

/// The directory converted when none is given.
pub open spec fn default_input_dir() -> Seq<char> {
    "."@
}

/// Reads the command line (the program's name first): help where the first
/// argument is `-h`, whatever follows; else the first argument as the input
/// directory; else the current directory.
pub fn parse_args(args: &Vec<String>) -> (r: Invocation)
    ensures
        args@.len() > 1 && args@[1]@ == help_flag() ==> r is Help,
        args@.len() > 1 && args@[1]@ != help_flag() ==> (r matches Invocation::Convert {
            input_dir,
        } && input_dir@ == args@[1]@),
        args@.len() <= 1 ==> (r matches Invocation::Convert { input_dir } && input_dir@
            == default_input_dir()),
{
    if args.len() > 1 {
        if same_text(args[1].as_str(), "-h") {
            Invocation::Help
        } else {
            Invocation::Convert { input_dir: args[1].clone() }
        }
    } else {
        Invocation::Convert { input_dir: String::from_str(".") }
    }
}

/// The usage text, line by line.
pub fn help_lines() -> (r: Vec<&'static str>)
    ensures
        r@.len() == 7,
        r@[0]@ == "AudioMorpher - 音频转换工具"@,
        r@[1]@ == "用法："@,
        r@[2]@ == "  audiomorpher [输入目录]"@,
        r@[3]@ == "选项："@,
        r@[4]@ == "  -h          显示帮助信息"@,
        r@[5]@ == "说明："@,
        r@[6]@ == "  将指定目录下的所有 .m4a 文件转换为 .mp3，并输出到 ./output 目录中。如果没有指定输入目录，默认使用当前目录。"@,
{
    vec![
        "AudioMorpher - 音频转换工具",
        "用法：",
        "  audiomorpher [输入目录]",
        "选项：",
        "  -h          显示帮助信息",
        "说明：",
        "  将指定目录下的所有 .m4a 文件转换为 .mp3，并输出到 ./output 目录中。如果没有指定输入目录，默认使用当前目录。",
    ]
}

/// The operating systems that have installation guidance of their own.
#[derive(PartialEq, Eq, Structural, Clone, Copy, Debug)]
pub enum Platform {
    MacOs,
    Linux,
    Windows,
    Other,
}

/// The platform of an operating system's identifier (`std::env::consts::OS`).
pub open spec fn platform_of(os: Seq<char>) -> Platform {
    if os == "macos"@ {
        Platform::MacOs
    } else if os == "linux"@ {
        Platform::Linux
    } else if os == "windows"@ {
        Platform::Windows
    } else {
        Platform::Other
    }
}

/// The platform of an operating system's identifier: `macos`, `linux` and
/// `windows` have their own, any other is `Other`.
pub fn platform_from_os(os: &str) -> (r: Platform)
    ensures
        r == platform_of(os@),
{
    if same_text(os, "macos") {
        Platform::MacOs
    } else if same_text(os, "linux") {
        Platform::Linux
    } else if same_text(os, "windows") {
        Platform::Windows
    } else {
        Platform::Other
    }
}

/// How to install the converter on a platform, line by line.
pub fn install_instructions(p: Platform) -> (r: Vec<&'static str>)
    ensures
        p == Platform::MacOs ==> r@.len() == 2 && r@[0]@ == "请使用 Homebrew 安装 ffmpeg："@
            && r@[1]@ == "brew install ffmpeg"@,
        p == Platform::Linux ==> r@.len() == 3 && r@[0]@ == "请使用以下命令安装 ffmpeg："@
            && r@[1]@ == "Debian/Ubuntu: sudo apt-get install ffmpeg"@ && r@[2]@
            == "CentOS: sudo yum install ffmpeg"@,
        p == Platform::Windows ==> r@.len() == 1 && r@[0]@
            == "请从 https://ffmpeg.org/download.html 下载并安装 Windows 版本的 ffmpeg，并确保将其添加到系统 PATH 中。"@,
        p == Platform::Other ==> r@.len() == 1 && r@[0]@
            == "无法确定操作系统，请访问 https://ffmpeg.org 下载并安装 ffmpeg。"@,
{
    match p {
        Platform::MacOs => vec!["请使用 Homebrew 安装 ffmpeg：", "brew install ffmpeg"],
        Platform::Linux => vec![
            "请使用以下命令安装 ffmpeg：",
            "Debian/Ubuntu: sudo apt-get install ffmpeg",
            "CentOS: sudo yum install ffmpeg",
        ],
        Platform::Windows => vec![
            "请从 https://ffmpeg.org/download.html 下载并安装 Windows 版本的 ffmpeg，并确保将其添加到系统 PATH 中。",
        ],
        Platform::Other => vec!["无法确定操作系统，请访问 https://ffmpeg.org 下载并安装 ffmpeg。"],
    }
}

/// The error printed where the converter cannot be found.
pub fn not_installed_message() -> (r: &'static str)
    ensures
        r@ == "Error: ffmpeg 未安装或无法找到。"@,
{
    "Error: ffmpeg 未安装或无法找到。"
}

/// The message printed where no source file was found.
pub fn nothing_found_message() -> (r: &'static str)
    ensures
        r@ == "没有找到 .m4a 文件。"@,
{
    "没有找到 .m4a 文件。"
}

/// The message that the progress display ends with.
pub fn finished_message() -> (r: &'static str)
    ensures
        r@ == "转换完成！"@,
{
    "转换完成！"
}

/// The closing message, naming the directory that holds the results.
pub fn done_message(output_dir: &str) -> (r: String)
    ensures
        r@ == "转换完成，请打开 "@ + output_dir@ + " 查看转换后的文件。"@,
{
    let mut r = String::from_str("转换完成，请打开 ");
    r.append(output_dir);
    r.append(" 查看转换后的文件。");
    r
}

} // verus!
