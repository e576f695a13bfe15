[package]
name = "buddy"
version = "0.1.0"
edition = "2021"
publish = false

[dependencies]
cpal = "0.15"
reqwest = { version = "0.12", default-features = false, features = ["json"] }
rodio = "0.19"
serde = { version = "1", features = ["derive"] }
serde_json = "1"
tokio = { version = "1", features = ["macros", "rt-multi-thread", "sync", "time"] }
toml = "0.8"
tts = "0.26"
whisper-rs = "*"
windows = { version = "0.58", features = ["Foundation", "Foundation_Collections", "Globalization", "Media_SpeechRecognition", "Win32_Foundation", "Win32_Media_Audio", "Win32_Media_Audio_Endpoints", "Win32_System_Com", "Win32_System_LibraryLoader", "Win32_System_Power", "Win32_System_Shutdown", "Win32_System_Threading", "Win32_System_WinRT", "Win32_UI_Input_KeyboardAndMouse", "Win32_UI_WindowsAndMessaging"] }
