use airdo::command_util::{unix_script, windows_command_arg, windows_script};
use base64::engine::general_purpose::STANDARD;
use base64::Engine;

fn unix_expected(commands: &[String]) -> String {
    let mut arg = String::new();
    for command in commands {
        arg.push_str(&format!(
            r#"
echo -n "> $(whoami)@$(hostname):$(pwd)\$ "
cat << 'c623c61f-be9e-4e54-99c2-00218425de09'
{}
c623c61f-be9e-4e54-99c2-00218425de09
{}
"#,
            command.replace("\n", "\n>> "),
            command
        ));
    }
    arg
}

fn windows_expected(commands: &[String]) -> String {
    let mut merge = String::new();
    merge.push_str(
        r#"
$ErrorActionPreference = 'Stop';
$OutputEncoding = [console]::InputEncoding = [console]::OutputEncoding = New-Object System.Text.UTF8Encoding
"#,
    );
    for command in commands {
        merge.push_str(&format!(
            r#"
Write-Output (@"
> $Env:UserName@$Env:ComputerName`:$((pwd).path)$ 
"@ + @'
{}
'@);
& {}; if (!$?) {{exit 1}}
"#,
            command.replace("\n", "\n>> "),
            command
        ));
    }
    merge
}

fn commands() -> Vec<String> {
    vec!["echo '123'".to_string(), "echo a\necho b".to_string(), "./mihomo -d .".to_string()]
}

#[test]
fn unix_script_echoes_then_runs_each_command() {
    assert_eq!(unix_script(&commands()), unix_expected(&commands()));
    assert_eq!(unix_script(&vec![]), "");
}

#[test]
fn windows_script_sets_up_then_runs_each_command() {
    assert_eq!(windows_script(&commands()), windows_expected(&commands()));
}

#[test]
fn windows_command_arg_carries_the_script_in_base64() {
    let merge = windows_expected(&commands());
    let expected = format!(
        r#"[System.Text.Encoding]::UTF8.GetString([System.Convert]::FromBase64String("{}")) | iex"#,
        STANDARD.encode(merge.as_bytes())
    );
    assert_eq!(windows_command_arg(&commands()), expected);
}
