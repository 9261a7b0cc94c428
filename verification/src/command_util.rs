//! The shell scripts that run a list of commands and echo each one before
//! running it, for `sh` and for PowerShell.
use vstd::prelude::*;
use vstd::utf8::encode_utf8;

use crate::base64_util::{base64_standard_text, encode_standard};
use crate::text::{chars_of, push_char};

verus! {

/// `s` with every line break followed by the continuation prompt `>> `
/// (`str::replace("\n", "\n>> ")`).
pub open spec fn prompt_continuations(s: Seq<char>) -> Seq<char>
    decreases s.len(),
{
    if s.len() == 0 {
        Seq::<char>::empty()
    } else if s.last() == '\n' {
        prompt_continuations(s.drop_last()) + "\n>> "@
    } else {
        prompt_continuations(s.drop_last()).push(s.last())
    }
}

/// Appends `s` with its line breaks followed by `>> ` to `out`.
fn push_with_prompts(out: &mut String, s: &str)
    ensures
        final(out)@ == old(out)@ + prompt_continuations(s@),
{
    let v = chars_of(s);
    let ghost start = out@;
    let mut i: usize = 0;
    while i < v.len()
        invariant
            v@ == s@,
            i <= v@.len(),
            out@ == start + prompt_continuations(v@.take(i as int)),
        decreases v.len() - i,
    {
        assert(v@.take(i + 1).drop_last() =~= v@.take(i as int));
        if v[i] == '\n' {
            out.append("\n>> ");
            proof {
                reveal_strlit("\n>> ");
            }
        } else {
            push_char(out, v[i]);
        }
        assert(out@ =~= start + prompt_continuations(v@.take(i + 1)));
        i = i + 1;
    }
    assert(v@.take(v@.len() as int) =~= s@);
}

/// What `sh` is given for one command: it prints a prompt and the command
/// (continuation lines prompted with `>> `), then runs the command.
pub open spec fn unix_trace(command: Seq<char>) -> Seq<char> {
    r#"
echo -n "> $(whoami)@$(hostname):$(pwd)\$ "
cat << 'c623c61f-be9e-4e54-99c2-00218425de09'
"#@ + prompt_continuations(command) + r#"
c623c61f-be9e-4e54-99c2-00218425de09
"#@ + command + "\n"@
}

/// The `sh` script for a list of commands: their traces in order.
pub open spec fn unix_script_spec(commands: Seq<Seq<char>>) -> Seq<char>
    decreases commands.len(),
{
    if commands.len() == 0 {
        Seq::<char>::empty()
    } else {
        unix_script_spec(commands.drop_last()) + unix_trace(commands.last())
    }
}

/// The script that `sh -c` runs for `commands`.
pub fn unix_script(commands: &Vec<String>) -> (r: String)
    ensures
        r@ == unix_script_spec(commands.deep_view()),
{
    let mut r = String::new();
    let mut i: usize = 0;
    while i < commands.len()
        invariant
            i <= commands@.len(),
            r@ == unix_script_spec(commands.deep_view().take(i as int)),
        decreases commands.len() - i,
    {
        let command = commands[i].as_str();
        let ghost before = r@;
        r.append(r#"
echo -n "> $(whoami)@$(hostname):$(pwd)\$ "
cat << 'c623c61f-be9e-4e54-99c2-00218425de09'
"#);
        push_with_prompts(&mut r, command);
        r.append(r#"
c623c61f-be9e-4e54-99c2-00218425de09
"#);
        r.append(command);
        r.append("\n");
        proof {
            assert(commands.deep_view().take(i + 1).drop_last() =~= commands.deep_view().take(
                i as int,
            ));
            assert(commands.deep_view()[i as int] == commands@[i as int]@);
        }
        assert(r@ =~= before + unix_trace(command@));
        i = i + 1;
    }
    assert(commands.deep_view().take(commands@.len() as int) =~= commands.deep_view());
    r
}

/// What PowerShell runs first: stop on errors and speak UTF-8.
pub open spec fn windows_setup() -> Seq<char> {
    r#"
$ErrorActionPreference = 'Stop';
$OutputEncoding = [console]::InputEncoding = [console]::OutputEncoding = New-Object System.Text.UTF8Encoding
"#@
}

/// What PowerShell is given for one command: it prints a prompt and the
/// command (continuation lines prompted with `>> `), runs it, and exits
/// with 1 when it failed.
pub open spec fn windows_trace(command: Seq<char>) -> Seq<char> {
    r#"
Write-Output (@"
> $Env:UserName@$Env:ComputerName`:$((pwd).path)$ 
"@ + @'
"#@ + prompt_continuations(command) + r#"
'@);
& "#@ + command + r#"; if (!$?) {exit 1}
"#@
}

/// The PowerShell script for a list of commands: the setup, then their
/// traces in order.
pub open spec fn windows_script_spec(commands: Seq<Seq<char>>) -> Seq<char>
    decreases commands.len(),
{
    if commands.len() == 0 {
        windows_setup()
    } else {
        windows_script_spec(commands.drop_last()) + windows_trace(commands.last())
    }
}

/// The PowerShell script for `commands`.
pub fn windows_script(commands: &Vec<String>) -> (r: String)
    ensures
        r@ == windows_script_spec(commands.deep_view()),
{
    let mut r = r#"
$ErrorActionPreference = 'Stop';
$OutputEncoding = [console]::InputEncoding = [console]::OutputEncoding = New-Object System.Text.UTF8Encoding
"#.to_owned();
    let mut i: usize = 0;
    assert(commands.deep_view().take(0) =~= Seq::<Seq<char>>::empty());
    while i < commands.len()
        invariant
            i <= commands@.len(),
            r@ == windows_script_spec(commands.deep_view().take(i as int)),
        decreases commands.len() - i,
    {
        let command = commands[i].as_str();
        let ghost before = r@;
        r.append(r#"
Write-Output (@"
> $Env:UserName@$Env:ComputerName`:$((pwd).path)$ 
"@ + @'
"#);
        push_with_prompts(&mut r, command);
        r.append(r#"
'@);
& "#);
        r.append(command);
        r.append(r#"; if (!$?) {exit 1}
"#);
        proof {
            assert(commands.deep_view().take(i + 1).drop_last() =~= commands.deep_view().take(
                i as int,
            ));
            assert(commands.deep_view()[i as int] == commands@[i as int]@);
        }
        assert(r@ =~= before + windows_trace(command@));
        i = i + 1;
    }
    assert(commands.deep_view().take(commands@.len() as int) =~= commands.deep_view());
    r
}

/// The `-command` argument of PowerShell: it decodes the script from
/// base64 of its UTF-8 bytes and runs it.
pub open spec fn windows_command_arg_spec(commands: Seq<Seq<char>>) -> Seq<char> {
    r#"[System.Text.Encoding]::UTF8.GetString([System.Convert]::FromBase64String(""#@
        + base64_standard_text(encode_utf8(windows_script_spec(commands))) + r#"")) | iex"#@
}

/// The `-command` argument that makes PowerShell run `commands`.
pub fn windows_command_arg(commands: &Vec<String>) -> (r: String)
    ensures
        r@ == windows_command_arg_spec(commands.deep_view()),
{
    let script = windows_script(commands);
    let encoded = encode_standard(script.as_str().as_bytes());
    let mut r = r#"[System.Text.Encoding]::UTF8.GetString([System.Convert]::FromBase64String(""#.to_owned();
    r.append(encoded.as_str());
    r.append(r#"")) | iex"#);
    assert(r@ =~= windows_command_arg_spec(commands.deep_view()));
    r
}

} // verus!
