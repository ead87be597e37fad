use std::io::Read;

use ffmpeg_service::services::ffmpeg::error::FFmpegError;
use ffmpeg_service::services::ffmpeg::executor::{
    render_arguments, render_bitrate, render_decimal, Executor, FFmpegExecutor, FFmpegLaunch,
};
use ffmpeg_service::services::ffmpeg::format::Format;
use ffmpeg_service::services::ffmpeg::task::{FFmpegStatus, FFmpegTask, FFmpegTaskParameters};

fn runtime() -> tokio::runtime::Runtime {
    tokio::runtime::Builder::new_current_thread()
        .enable_all()
        .build()
        .unwrap()
}

fn start(launch: FFmpegLaunch, output: std::io::PipeWriter) -> Result<FFmpegTask, FFmpegError> {
    let spawned = tokio::process::Command::new(&launch.executable)
        .args(&launch.arguments)
        .stdout(output)
        .spawn();
    launch.into_task(spawned)
}

fn echoed(format: Format, src: &str, target: &str) -> String {
    let executor = FFmpegExecutor { executable: "echo" };
    runtime().block_on(async {
        let (mut reader, writer) = std::io::pipe().unwrap();
        let launch = executor.executor(&FFmpegTaskParameters { format, src, target });
        let result = start(launch, writer).unwrap();
        assert!(matches!(result.status, FFmpegStatus::Running));
        assert_eq!(result.target, target);

        let mut child = result.child;
        let status = child.wait().await.unwrap();
        assert!(status.success());
        let mut output = Vec::new();
        reader.read_to_end(&mut output).unwrap();
        String::from_utf8_lossy(&output).to_string()
    })
}

#[test]
fn executor_flac_test() {
    let output_str = echoed(Format::Flac, "/src.mp4", "/target.flac");

    assert_eq!(output_str.trim(), "-y -i /src.mp4 -c:a flac /target.flac");
}

#[test]
fn executor_mp3_test() {
    let output_str = echoed(Format::Mp3(320), "/src.mp4", "/target.mp3");

    assert_eq!(
        output_str.trim(),
        "-y -i /src.mp4 -c:a libmp3lame -b:a 320k /target.mp3"
    );
}

#[test]
fn executor_aac_test() {
    let output_str = echoed(Format::Aac(128), "/src.mp4", "/target.aac");

    assert_eq!(
        output_str.trim(),
        "-y -i /src.mp4 -c:a aac -b:a 128k /target.aac"
    );
}

#[test]
fn arguments_of_mp3_in_order() {
    let arguments = render_arguments(&FFmpegTaskParameters {
        format: Format::Mp3(320),
        src: "/src.mp4",
        target: "/target.mp3",
    });
    assert_eq!(
        arguments,
        vec!["-y", "-i", "/src.mp4", "-c:a", "libmp3lame", "-b:a", "320k", "/target.mp3"]
    );
}

#[test]
fn arguments_of_flac_have_no_bitrate() {
    let arguments = render_arguments(&FFmpegTaskParameters {
        format: Format::Flac,
        src: "/src.mp4",
        target: "/target.flac",
    });
    assert_eq!(
        arguments,
        vec!["-y", "-i", "/src.mp4", "-c:a", "flac", "/target.flac"]
    );
}

#[test]
fn arguments_of_aac_hold_bitrate_segment() {
    let arguments = render_arguments(&FFmpegTaskParameters {
        format: Format::Aac(128),
        src: "in put.wav",
        target: "",
    });
    assert_eq!(
        arguments,
        vec!["-y", "-i", "in put.wav", "-c:a", "aac", "-b:a", "128k", ""]
    );
}

#[test]
fn bitrate_segment_present_exactly_for_lossy_formats() {
    for format in [Format::Mp3(1), Format::Aac(1), Format::Flac] {
        let arguments = render_arguments(&FFmpegTaskParameters {
            format,
            src: "a",
            target: "b",
        });
        let has_segment = arguments.iter().any(|argument| argument == "-b:a");
        assert_eq!(has_segment, format.get_bitrate().is_some());
        assert_eq!(arguments.len(), if has_segment { 8 } else { 6 });
        assert_eq!(arguments.last().unwrap(), "b");
    }
}

#[test]
fn decimal_of_small_and_large_numbers() {
    assert_eq!(render_decimal(0), "0");
    assert_eq!(render_decimal(7), "7");
    assert_eq!(render_decimal(10), "10");
    assert_eq!(render_decimal(320), "320");
    assert_eq!(render_decimal(1234567890), "1234567890");
    assert_eq!(render_decimal(usize::MAX), usize::MAX.to_string());
}

#[test]
fn bitrate_is_number_then_k() {
    assert_eq!(render_bitrate(0), "0k");
    assert_eq!(render_bitrate(128), "128k");
    assert_eq!(render_bitrate(1000), "1000k");
}

#[test]
fn launch_holds_executable_arguments_and_target() {
    let executor = FFmpegExecutor { executable: "ffmpeg" };
    let launch = executor.executor(&FFmpegTaskParameters {
        format: Format::Flac,
        src: "/src.mp4",
        target: "/target.flac",
    });
    assert_eq!(launch.executable, "ffmpeg");
    assert_eq!(
        launch.arguments,
        vec!["-y", "-i", "/src.mp4", "-c:a", "flac", "/target.flac"]
    );
    assert_eq!(launch.target, "/target.flac");
}

#[test]
fn command_line_is_the_debug_text_of_the_command() {
    let executor = FFmpegExecutor { executable: "ffmpeg" };
    let launch = executor.executor(&FFmpegTaskParameters {
        format: Format::Mp3(320),
        src: "/src.mp4",
        target: "/target.mp3",
    });
    let mut command = tokio::process::Command::new("ffmpeg");
    command.args(["-y", "-i", "/src.mp4", "-c:a", "libmp3lame", "-b:a", "320k", "/target.mp3"]);
    assert_eq!(launch.command_line, format!("{:?}", command));
    assert!(launch.command_line.contains("\"ffmpeg\" \"-y\" \"-i\" \"/src.mp4\" \"-c:a\" \"libmp3lame\" \"-b:a\" \"320k\" \"/target.mp3\""));
    assert_ne!(launch.command_line, "ffmpeg");
}

#[test]
fn failed_start_becomes_spawn_failed_with_command_line() {
    let executor = FFmpegExecutor { executable: "/nonexistent/transcoder" };
    let launch = executor.executor(&FFmpegTaskParameters {
        format: Format::Flac,
        src: "/src.mp4",
        target: "/target.flac",
    });
    let command_line = launch.command_line.clone();
    let result = runtime().block_on(async {
        let (_reader, writer) = std::io::pipe().unwrap();
        start(launch, writer)
    });
    match result {
        Err(FFmpegError::SpawnFFmpegFailed(error, text)) => {
            assert_eq!(error.kind(), std::io::ErrorKind::NotFound);
            assert_eq!(text, command_line);
        }
        _ => panic!("a start that fails must give SpawnFFmpegFailed"),
    }
}
